# payment_router

A payment router for the Stellar network. It takes a platform fee out of each payment and sends
the rest to the recipient. Senders above a volume threshold pay half the rate, everybody has a
daily spending limit, and an admin sets the terms, keeps a blacklist and can pause the router.

The logic is a verified Verus library; the contract around it is ordinary Rust.

## Layout

- `src/` is the library.
  - `router.rs`: constants, setup, and what the admin can do.
  - `routing.rs`: one payment. `batch.rs`: payments one after the other, step by step.
  - `fees.rs`, `limits.rs`: the fee arithmetic and the 24-hour window.
  - `ledger.rs`: what is kept on the ledger, and what is asked of the ledger host.
  - `laws/`: what holds of the router as a whole.
- `app/` is the Soroban contract: it loads what the ledger holds, has the library work the call
  out, and carries out what the library asks for.
- `tests/contract.rs` runs the library on a Soroban host, with real storage, authorization, events
  and tokens. `tests/library.rs` tests it by itself.

## Where the line runs

A contract function is worked out in an `Invocation`: it holds what instance storage holds and
collects the `HostCall`s that the host has to carry out, in order. The contracts of the functions
say exactly what is returned and exactly what is asked for, on every input; none of them has a
precondition. Where a sum, difference or product would leave its type, the library says so
(`Halt::Overflow`) and the contract traps.

Nothing is trusted in the library: it makes no host call. Whether an address has authorized a call,
what an entry holds, what time it is and what a token contract answers are facts about the ledger,
and a host call that cannot be carried out traps the whole invocation instead of returning. So the
library says which call comes when, takes the answers as plain values, and is proved for every
answer that can come.

Routing needs answers on the way: the entries of the two parties, then the sender's token balance.
`route_payment` and `route_payments` therefore return a `Progress`, which is either done or says
what it waits for; `law_routing_makes_the_batch` shows that answering it step by step makes the
payments one after the other.
