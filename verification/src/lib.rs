//! A batch trade router: it walks a caller-supplied list of pool legs, one
//! collaborator call at a time, and keeps the running total, the price bound
//! and the reentrancy guard.

pub mod call;
pub mod laws;
pub mod machine;
pub mod guard;
pub mod numeric;
pub mod proxy;
pub mod trade;
pub mod types;
