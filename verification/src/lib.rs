//! Window orchestration for a multi-window desktop shell.
//!
//! The crate holds the decisions of the shell and none of its side effects:
//! which content location a window name stands for, whether a request opens a
//! new window or focuses an open one, how the count of created windows moves,
//! and which events go to which window. The host that draws windows and
//! delivers events is driven by the caller, who reports back what the host
//! answered.
//!
//! - [`registry`]: the fixed mapping from window name to content location.
//! - [`state`]: the count of windows created.
//! - [`orchestrator`]: the two steps of a request to create or focus a window.
//! - [`dispatch`]: forwarding of commands to their target window.
//! - [`events`]: the events that go to windows.
//! - [`error`]: the failures of a request.
//! - [`model`] and [`interleaving`]: the shell together with its host, and
//!   what is proved of whole requests, alone and side by side.

pub mod dispatch;
pub mod error;
pub mod events;
pub mod interleaving;
pub mod model;
pub mod orchestrator;
pub mod registry;
pub mod state;
