//! A bridge between a host that drives a piece of user interface by calls and the
//! reactive state that the mounted component shows.
//!
//! A [`state_cell::StateCell`] holds one value and the observers of its changes, each
//! an [`observer::Observer`] that keeps the record of its own notifications. A
//! [`bridge::Bridge`] owns the cells of the mounted components of one kind, keeps for
//! each what its presentation function makes of the current value, and hands the host
//! a [`bridge::Handle`] for each. [`deferred::Deferred`] holds the updates that
//! observers ask for while they are notified. [`generic_input`] and [`generic_output`]
//! are the two kinds of component that a host attaches, and [`laws`] states what holds
//! of every sequence of their operations.

pub mod bridge;
pub mod deferred;
pub mod error;
pub mod generic_input;
pub mod generic_output;
pub mod laws;
pub mod observer;
pub mod state_cell;
