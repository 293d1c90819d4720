//! Coordination core of a terminal status dashboard.
//!
//! A controller polls a status source on a fixed interval and forwards each
//! snapshot to the UI; the UI drains its inbox once per render step and hands
//! every snapshot to every registered status view; a quit key sends a shutdown
//! request back to the controller, which stops the UI and terminates.
//!
//! The terminal itself, the sleeping between iterations and the thread-safe
//! status handle belong to the program around this library. Here the render
//! engine is the little of it that the protocol reads: whether it is running
//! and how many frames it was asked for.

mod clock;
pub mod controller;
pub mod engine;
pub mod mailbox;
pub mod message;
pub mod mining;
pub mod panel;
pub mod theme;
pub mod ui;
pub mod version;
pub mod view;
