//! The command dispatcher: forward a command's arguments to its target window.

use crate::events::{Emission, EmissionView, IM_WINDOW, TARGET_FIELD};
use vstd::prelude::*;
use vstd::string::*;

verus! {

/// A command for a window: the name of the target and the arguments for it.
#[derive(Debug, PartialEq, Eq)]
pub struct Command {
    /// The name of the window that the command is meant for.
    pub target_name: String,
    /// The arguments, passed on as they are.
    pub args: String,
}

/// The mathematical value of a [`Command`].
pub struct CommandView {
    pub target_name: Seq<char>,
    pub args: Seq<char>,
}

impl View for Command {
    type V = CommandView;

    open spec fn view(&self) -> CommandView {
        CommandView { target_name: self.target_name@, args: self.args@ }
    }
}

/// What becomes of a command. None of the three is a failure.
#[derive(Debug, PartialEq, Eq)]
pub enum Dispatch {
    /// The command had no arguments: there is nothing to do.
    Nothing,
    /// The arguments go to the target window as one event.
    Forward { emission: Emission },
    /// The target is not a window that takes commands. Nothing is sent; the
    /// caller may want to report the target.
    Unrecognized { target: String },
}

/// The mathematical value of a [`Dispatch`].
pub enum DispatchView {
    Nothing,
    Forward { emission: EmissionView },
    Unrecognized { target: Seq<char> },
}

impl View for Dispatch {
    type V = DispatchView;

    open spec fn view(&self) -> DispatchView {
        match self {
            Dispatch::Nothing => DispatchView::Nothing,
            Dispatch::Forward { emission } => DispatchView::Forward { emission: emission@ },
            Dispatch::Unrecognized { target } => DispatchView::Unrecognized { target: target@ },
        }
    }
}

impl DispatchView {
    /// The events that the dispatch sends, in order.
    pub open spec fn emissions(self) -> Seq<EmissionView> {
        match self {
            DispatchView::Forward { emission } => seq![emission],
            _ => Seq::empty(),
        }
    }
}

/// Whether `target` names a window that takes commands.
pub open spec fn is_recognized_target(target: Seq<char>) -> bool {
    target == IM_WINDOW@
}

/// What becomes of `command`: nothing without arguments; otherwise one event
/// with the arguments for a recognized target, and a report for any other.
pub open spec fn dispatch_for(command: CommandView) -> DispatchView {
    if command.args.len() == 0 {
        DispatchView::Nothing
    } else if is_recognized_target(command.target_name) {
        DispatchView::Forward {
            emission: EmissionView {
                target: command.target_name,
                event: TARGET_FIELD@,
                payload: Some(command.args),
            },
        }
    } else {
        DispatchView::Unrecognized { target: command.target_name }
    }
}

/// Decides what becomes of `command`.
///
/// A command without arguments sends nothing, whatever its target. A command
/// with arguments for a recognized target sends exactly one event, which
/// carries the arguments unchanged.
pub fn dispatch_command(command: &Command) -> (dispatch: Dispatch)
    ensures
        dispatch@ == dispatch_for(command@),
        command@.args.len() == 0 ==> dispatch@.emissions() == Seq::<EmissionView>::empty(),
        command@.args.len() > 0 && is_recognized_target(command@.target_name)
            ==> dispatch@.emissions() == seq![
            EmissionView {
                target: command@.target_name,
                event: TARGET_FIELD@,
                payload: Some(command@.args),
            },
        ],
{
    if command.args.as_str().is_empty() {
        Dispatch::Nothing
    } else if command.target_name == String::from_str(IM_WINDOW) {
        Dispatch::Forward {
            emission: Emission::carry(IM_WINDOW, TARGET_FIELD, command.args.as_str()),
        }
    } else {
        Dispatch::Unrecognized { target: command.target_name.clone() }
    }
}

} // verus!
