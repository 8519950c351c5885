//! A cache of market quote histories, one series per ticker symbol, with a
//! staleness policy that decides when a series has to be fetched again.
//!
//! The crate holds no clock, no network and no lock of its own: a caller
//! passes the current time in, performs the fetch that the store asks for,
//! and hands the outcome back.

pub mod quote;
pub mod requests;
pub mod storage;
pub mod trace;
