//! Settlement core for over-the-counter orders between margin accounts: a
//! fixed-capacity order slot store per account, the create / cancel / delete
//! lifecycle, and a health-gated settlement that moves positions between the
//! creator and the named counterparty exactly once.

pub mod error;
pub mod orders;
pub mod settlement;
pub mod laws;
pub mod instruction;
