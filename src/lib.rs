//! A delegated burn authority: it burns its whole balance of a denomination
//! through the token-issuance authority that made it the denomination's admin,
//! and keeps a running tally of what it has burned per denomination.

pub mod contract;
pub mod error;
pub mod laws;
pub mod msg;
pub mod payment;
pub mod state;
