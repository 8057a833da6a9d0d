//! Active-window watcher: the decision core of a foreground-window
//! polling loop.
//!
//! Once per tick a host queries the operating system for the current
//! foreground window and hands the outcome to a [`tracker::Tracker`].
//! The tracker compares the owning application's name to the last
//! successfully observed one and decides whether a change event must be
//! published. The host performs the query, the sleep and the delivery;
//! every decision is made here and verified.

pub mod event;
pub mod run;
pub mod tracker;
