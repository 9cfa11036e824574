//! Single-use communication primitives: a counting completion barrier, a
//! strict two-party rendezvous channel, a write-once multi-writer consensus
//! cell, and a single-sender multi-reader broadcast future.
//!
//! Each primitive is specified and verified as a state machine with a single
//! logical instance. The ghost model of an instance (its flags and its value
//! slot) is exposed through a view, every operation's contract says exactly
//! how it moves the model and which result it returns, and the laws that
//! relate several operations — agreement between writers, exactly-once
//! transfer, broadcast of one value to all readers — are proved as lemmas
//! over the model transitions.
//!
//! The concurrent realization of these machines runs each instance behind
//! shared handles, and suspends a reader or a rendezvous party until its
//! peer has arrived. That scheduling is outside this model: here one owner
//! drives the instance, and an operation that would suspend forever with no
//! peer to wake it is excluded by its precondition instead of blocking.

pub mod i_var;
pub mod once_cell;
pub mod pi_chan;
pub mod ping;
pub mod prop_chan;
pub mod wait_group;
