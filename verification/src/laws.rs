//! What holds of the router as a whole.

pub mod admin;
pub mod batches;
pub mod fees;
pub mod limits;
pub mod payments;
pub mod storage;
