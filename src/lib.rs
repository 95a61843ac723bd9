//! Eligibility lookup: resolve an identity to its award record, the contract
//! that the record refers to and the ordered inclusion-proof path, and decide
//! the response that a lookup ends in.
//!
//! The store is read by the caller: the library says which read to make next
//! and turns what came back into the next decision.

pub mod record;
pub mod path;
pub mod lookup;
