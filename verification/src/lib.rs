//! Keeps an operating system's input method editor in step with a modal
//! editor: composition is suppressed while keys are commands and restored when
//! text is inserted again.
//!
//! Every function here is a decision: it takes what the native input
//! subsystem reported and answers with the request to send next. The caller
//! owns the connection and performs the requests.

pub mod config;
pub mod ime;
pub mod linux;
pub mod macos;
pub mod windows;
pub mod controller;
