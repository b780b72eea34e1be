//! The window orchestrator: focus an open window or create a new one.
//!
//! A request runs in two steps around the host. [`plan_window`] takes the
//! host's answer to "is a window of this name open?" and decides what the host
//! is asked to do. The caller lets the host do it and hands the host's reply to
//! [`settle_window`], which updates the window count and says which
//! notifications go out.

use crate::error::{ErrorView, OrchestratorError};
use crate::events::{
    emission_views, notification, Emission, EmissionView, CMD_REQUEST, WINDOW_CREATED,
};
use crate::registry::LocationRegistry;
use crate::state::AppState;
use vstd::prelude::*;
use vstd::string::*;

verus! {

/// The initial width of a new window, in logical pixels.
pub const WINDOW_WIDTH: u32 = 1200;

/// The initial height of a new window, in logical pixels.
pub const WINDOW_HEIGHT: u32 = 800;

/// What the host needs to know to create a window.
#[derive(Debug, PartialEq, Eq)]
pub struct WindowRequest {
    /// The identifier of the window among the host's windows.
    pub label: String,
    /// The title of the window.
    pub title: String,
    /// The content location that the window shows.
    pub location: String,
    /// Whether the host draws its own frame around the window.
    pub decorations: bool,
    /// The initial width, in logical pixels.
    pub width: u32,
    /// The initial height, in logical pixels.
    pub height: u32,
    /// Whether a debug build opens the developer tools on the new window.
    pub devtools_on_debug: bool,
}

/// The mathematical value of a [`WindowRequest`].
pub struct WindowRequestView {
    pub label: Seq<char>,
    pub title: Seq<char>,
    pub location: Seq<char>,
    pub decorations: bool,
    pub width: u32,
    pub height: u32,
    pub devtools_on_debug: bool,
}

impl View for WindowRequest {
    type V = WindowRequestView;

    open spec fn view(&self) -> WindowRequestView {
        WindowRequestView {
            label: self.label@,
            title: self.title@,
            location: self.location@,
            decorations: self.decorations,
            width: self.width,
            height: self.height,
            devtools_on_debug: self.devtools_on_debug,
        }
    }
}

/// What the orchestrator asks of the host.
#[derive(Debug, PartialEq, Eq)]
pub enum HostRequest {
    /// Bring the open window `label` to the front.
    Focus { label: String },
    /// Create the window described by `window`.
    Create { window: WindowRequest },
}

/// The mathematical value of a [`HostRequest`].
pub enum HostRequestView {
    Focus { label: Seq<char> },
    Create { window: WindowRequestView },
}

impl View for HostRequest {
    type V = HostRequestView;

    open spec fn view(&self) -> HostRequestView {
        match self {
            HostRequest::Focus { label } => HostRequestView::Focus { label: label@ },
            HostRequest::Create { window } => HostRequestView::Create { window: window@ },
        }
    }
}

impl HostRequestView {
    /// The name of the window that the request is about.
    pub open spec fn label(self) -> Seq<char> {
        match self {
            HostRequestView::Focus { label } => label,
            HostRequestView::Create { window } => window.label,
        }
    }
}

/// The window that is created for `name` at `location`: named and titled
/// `name`, without decorations, 1200 by 800, with developer tools in debug
/// builds.
pub open spec fn window_for(name: Seq<char>, location: Seq<char>) -> WindowRequestView {
    WindowRequestView {
        label: name,
        title: name,
        location,
        decorations: false,
        width: WINDOW_WIDTH,
        height: WINDOW_HEIGHT,
        devtools_on_debug: true,
    }
}

/// What a request for `name` asks of the host: focus if a window of that name
/// is open; otherwise a new window at the registered location; and a failure if
/// the name is not registered.
pub open spec fn plan_for(
    registry: Map<Seq<char>, Seq<char>>,
    name: Seq<char>,
    is_open: bool,
) -> Result<HostRequestView, ErrorView> {
    if is_open {
        Ok(HostRequestView::Focus { label: name })
    } else if registry.contains_key(name) {
        Ok(HostRequestView::Create { window: window_for(name, registry[name]) })
    } else {
        Err(ErrorView::UnknownWindowName { name })
    }
}

/// The window count after the host has replied to `request`: one more if a
/// window was created, unchanged otherwise.
pub open spec fn count_after(count: nat, request: HostRequestView, host_ok: bool) -> nat {
    if host_ok && request is Create {
        count + 1
    } else {
        count
    }
}

/// The notifications that follow a request the host has carried out. The
/// observer hears of every request, also of one that only focused a window.
pub open spec fn notifications_for(request: HostRequestView) -> Seq<EmissionView> {
    match request {
        HostRequestView::Focus { .. } => seq![
            notification(WINDOW_CREATED@),
            notification(CMD_REQUEST@),
        ],
        HostRequestView::Create { .. } => seq![notification(CMD_REQUEST@)],
    }
}

/// How a request ends once the host has replied: with its notifications, or
/// with the host's failure and nothing sent.
pub open spec fn settlement_for(request: HostRequestView, reply: Result<(), Seq<char>>) -> Result<
    Seq<EmissionView>,
    ErrorView,
> {
    match reply {
        Ok(_) => Ok(notifications_for(request)),
        Err(reason) => Err(ErrorView::HostOperationFailure { name: request.label(), reason }),
    }
}

/// The mathematical value of the result of [`plan_window`].
pub open spec fn plan_view(planned: Result<HostRequest, OrchestratorError>) -> Result<
    HostRequestView,
    ErrorView,
> {
    match planned {
        Ok(request) => Ok(request@),
        Err(error) => Err(error@),
    }
}

/// The mathematical value of a host's reply.
pub open spec fn reply_view(reply: Result<(), String>) -> Result<(), Seq<char>> {
    match reply {
        Ok(_) => Ok(()),
        Err(reason) => Err(reason@),
    }
}

/// The mathematical value of the result of [`settle_window`].
pub open spec fn settlement_view(settled: Result<Vec<Emission>, OrchestratorError>) -> Result<
    Seq<EmissionView>,
    ErrorView,
> {
    match settled {
        Ok(emissions) => Ok(emission_views(emissions@)),
        Err(error) => Err(error@),
    }
}

/// Decides what the host is asked to do for a request to create or focus the
/// window `name`. `is_open` is the host's answer to whether a window of that
/// name is open.
///
/// An unregistered name fails only where a window would have to be created: a
/// window that is open is focused whatever the registry holds.
pub fn plan_window(registry: &LocationRegistry, name: &str, is_open: bool) -> (planned: Result<
    HostRequest,
    OrchestratorError,
>)
    ensures
        plan_view(planned) == plan_for(registry@, name@, is_open),
{
    if is_open {
        Ok(HostRequest::Focus { label: String::from_str(name) })
    } else {
        match registry.resolve(name) {
            Ok(location) => Ok(
                HostRequest::Create {
                    window: WindowRequest {
                        label: String::from_str(name),
                        title: String::from_str(name),
                        location,
                        decorations: false,
                        width: WINDOW_WIDTH,
                        height: WINDOW_HEIGHT,
                        devtools_on_debug: true,
                    },
                },
            ),
            Err(error) => Err(error),
        }
    }
}

/// Finishes a request after the host has replied to `request`.
///
/// The window count grows by one exactly when the host has created a window.
/// When the host failed, the state stays as it was, nothing is sent, and the
/// failure carries the host's reason.
pub fn settle_window(state: &mut AppState, request: &HostRequest, reply: Result<(), String>) -> (settled:
    Result<Vec<Emission>, OrchestratorError>)
    requires
        request is Create && reply is Ok ==> old(state).count() < u64::MAX,
    ensures
        final(state).count() == count_after(old(state).count(), request@, reply is Ok),
        settlement_view(settled) == settlement_for(request@, reply_view(reply)),
{
    match reply {
        Ok(_) => {
            let mut emissions: Vec<Emission> = Vec::new();
            match request {
                HostRequest::Focus { .. } => {
                    emissions.push(Emission::notify(WINDOW_CREATED));
                },
                HostRequest::Create { .. } => {
                    state.increment_window_count();
                },
            }
            emissions.push(Emission::notify(CMD_REQUEST));
            assert(emission_views(emissions@) =~= notifications_for(request@));
            Ok(emissions)
        },
        Err(reason) => {
            let name = match request {
                HostRequest::Focus { label } => label.clone(),
                HostRequest::Create { window } => window.label.clone(),
            };
            Err(OrchestratorError::HostOperationFailure { name, reason })
        },
    }
}

} // verus!
