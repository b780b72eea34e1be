//! Events that the shell sends to its windows.
//!
//! An emission is fire-and-forget: the shell names the window, the event and
//! the payload, and the host delivers it if the window is ready.

use vstd::prelude::*;
use vstd::string::*;

verus! {

/// The messaging window. It observes the shell's lifecycle notifications and
/// is the one window that commands can be dispatched to.
pub const IM_WINDOW: &'static str = "im";

/// Sent to the observer when a request found its window already open.
pub const WINDOW_CREATED: &'static str = "window_created";

/// Sent to the observer at the end of every successful window request.
pub const CMD_REQUEST: &'static str = "cmd_request";

/// Carries the arguments of a dispatched command to its target window.
pub const TARGET_FIELD: &'static str = "target_field";

/// One event addressed to one window.
#[derive(Debug, PartialEq, Eq)]
pub struct Emission {
    /// The name of the window that receives the event.
    pub target: String,
    /// The name of the event.
    pub event: String,
    /// The text carried by the event, if it carries any.
    pub payload: Option<String>,
}

/// The mathematical value of an [`Emission`].
pub struct EmissionView {
    pub target: Seq<char>,
    pub event: Seq<char>,
    pub payload: Option<Seq<char>>,
}

impl View for Emission {
    type V = EmissionView;

    open spec fn view(&self) -> EmissionView {
        EmissionView {
            target: self.target@,
            event: self.event@,
            payload: match self.payload {
                Some(text) => Some(text@),
                None => None,
            },
        }
    }
}

/// A notification without payload for the observer window.
pub open spec fn notification(event: Seq<char>) -> EmissionView {
    EmissionView { target: IM_WINDOW@, event, payload: None }
}

/// The views of a list of emissions, in order.
pub open spec fn emission_views(emissions: Seq<Emission>) -> Seq<EmissionView> {
    Seq::new(emissions.len(), |i: int| emissions[i]@)
}

impl Emission {
    /// Builds a notification without payload for the observer window.
    pub fn notify(event: &str) -> (emission: Emission)
        ensures
            emission@ == notification(event@),
    {
        Emission {
            target: String::from_str(IM_WINDOW),
            event: String::from_str(event),
            payload: None,
        }
    }

    /// Builds an event that carries `payload` to the window `target`.
    pub fn carry(target: &str, event: &str, payload: &str) -> (emission: Emission)
        ensures
            emission@ == (EmissionView {
                target: target@,
                event: event@,
                payload: Some(payload@),
            }),
    {
        Emission {
            target: String::from_str(target),
            event: String::from_str(event),
            payload: Some(String::from_str(payload)),
        }
    }
}

} // verus!
