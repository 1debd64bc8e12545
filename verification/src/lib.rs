//! Ledger-and-position state machine for simulated leveraged trading.
//!
//! Every operation is one transition on plain records: it either applies
//! all of its changes or rejects the request with an [`errors::ErrorCode`]
//! and changes nothing. Prices, timestamps and caller identities are
//! arguments; the library reads no clock, fetches no price and moves no
//! money itself.
//!
//! - [`math`]: checked six-decimal fixed-point arithmetic.
//! - [`identity`]: the identities that records and callers are compared by.
//! - [`config`]: the configuration record and its executor whitelist.
//! - [`account`]: the balance record of one owner and trading pair.
//! - [`position`]: opening a position and the three ways of closing it.
//! - [`components`], [`systems`], [`trophy`]: the competition mode.

pub mod account;
pub mod components;
pub mod config;
pub mod errors;
pub mod identity;
pub mod math;
pub mod position;
pub mod systems;
pub mod trophy;
