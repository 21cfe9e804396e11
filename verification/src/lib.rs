//! Interaction core of a terminal client for composing, storing and firing
//! HTTP requests.
//!
//! The crate holds the state machine that turns key presses into changes of
//! the request list and of the edited fields, the decisions of the event
//! clock, and the projection of the state into a screen description. It
//! performs no input or output: whatever has to reach the network, the
//! store or the terminal is handed to the caller as a value.

pub mod app;
pub mod event;
