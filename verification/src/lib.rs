//! State-transition logic of a single-event ticket sale: registration of the
//! sale terms, the two-phase issuance of the ticket-class token, the sale of
//! numbered tickets against exact payment, and the owner's withdrawal.
//!
//! The library holds no connection to a ledger. Each operation takes what the
//! host reports about the current call as plain values and answers with the
//! next contents of the three persistent records and the requests that the
//! host is to carry out.

pub mod amount;
pub mod bytes;
pub mod contract;
pub mod decimal;
pub mod error;
pub mod laws;
pub mod records;
pub mod requests;
pub mod rules;
