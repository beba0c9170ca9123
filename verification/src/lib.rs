//! A minimal account-balance ledger, written as an on-chain program's core.
//!
//! The library holds the verified logic: decoding the instruction payload,
//! the 40-byte account record and its byte layout, and the three operation
//! handlers (initialize, deposit, withdraw) as transitions on a plain model
//! of the account slots.  The thin host glue — reading the runtime's account
//! handles, performing the one cross-program allocation call, and writing the
//! results back — lives outside the library.

pub mod codec;
pub mod error;
pub mod instruction;
pub mod processor;
pub mod state;
