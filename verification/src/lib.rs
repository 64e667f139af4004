//! Tollgated vesting of a fixed pool of one asset.
//!
//! Every recipient vests an allocation over a schedule of equal periods whose
//! length is derived from the size of the allocation. Only a few periods are
//! unlocked at a time: at each tollgate the master either unlocks the next
//! block of periods or halts the vesting for good, in which case whatever the
//! recipient has not yet earned goes to the community pool.
//!
//! * [`error`] holds the failures of the contract.
//! * [`msg`] holds the messages it takes and the instructions it hands back.
//! * [`state`] holds the parameters and the record of one recipient.
//! * [`store`] holds the state of the contract: the parameters and the
//!   records, one for each recipient.
//! * [`schedule`] is the period accounting on a single record.
//! * [`contract`] applies the operations to a store.
//! * [`laws`] proves what holds over every run of the operations.
//!
//! The library decides; it performs nothing. It reads no clock and moves no
//! funds: the time of a call is an argument, and a transfer is a value that
//! is handed back to the host.

pub mod contract;
pub mod error;
pub mod laws;
pub mod msg;
pub mod schedule;
pub mod state;
pub mod store;
