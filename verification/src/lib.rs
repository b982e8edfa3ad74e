//! A ledger-resident social graph: user profiles, posts, comments and likes
//! stored at deterministically derived addresses, plus a delegated-signing
//! session protocol with a fundable, refundable balance and a batched action
//! processor.
//!
//! Records live in an addressable store keyed by the output of the address
//! derivation scheme; creating a record fails if its derived address is
//! already occupied, which is what gives every entity its uniqueness
//! guarantee. Identity balances live in a separate ledger and move only
//! through the session funding and refunding operations.

pub mod addresses;
pub mod records;
pub mod store;
pub mod ledger;
pub mod ops;
pub mod batch;
pub mod laws;
