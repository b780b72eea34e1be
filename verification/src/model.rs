//! A model of the shell together with its host, and what holds of it.
//!
//! The orchestrator never sees the host's windows; it is told whether a window
//! is open and whether the host did what it was asked. This module puts the
//! two together: a [`Shell`] is the set of open windows plus the window count,
//! and [`request_window`] is one whole request against it, built from the same
//! functions that the contracts of the orchestrator speak of. The proof
//! functions below state what follows for whole requests and for sequences of
//! them.

use crate::error::ErrorView;
use crate::events::{notification, EmissionView, CMD_REQUEST, WINDOW_CREATED};
use crate::orchestrator::{
    count_after, notifications_for, plan_for, settlement_for, window_for, HostRequestView,
};
use vstd::prelude::*;

verus! {

/// The shell as a whole: the names of the host's open windows and the number
/// of windows created so far.
pub struct Shell {
    pub open: Set<Seq<char>>,
    pub count: nat,
}

/// How a request ended, and the shell after it.
pub struct Outcome {
    pub shell: Shell,
    pub result: Result<Seq<EmissionView>, ErrorView>,
}

/// The host's open windows after it has replied to `request`: a window that it
/// created is open; a failed request and a focus change nothing.
pub open spec fn host_after(open: Set<Seq<char>>, request: HostRequestView, host_ok: bool) -> Set<
    Seq<char>,
> {
    if host_ok && request is Create {
        open.insert(request.label())
    } else {
        open
    }
}

/// The shell after the host has replied to `request`.
pub open spec fn shell_after(shell: Shell, request: HostRequestView, host_ok: bool) -> Shell {
    Shell {
        open: host_after(shell.open, request, host_ok),
        count: count_after(shell.count, request, host_ok),
    }
}

/// One whole request to create or focus the window `name`, where `reply` is
/// what the host answers if it is asked anything.
pub open spec fn request_window(
    registry: Map<Seq<char>, Seq<char>>,
    shell: Shell,
    name: Seq<char>,
    reply: Result<(), Seq<char>>,
) -> Outcome {
    match plan_for(registry, name, shell.open.contains(name)) {
        Ok(request) => Outcome {
            shell: shell_after(shell, request, reply is Ok),
            result: settlement_for(request, reply),
        },
        Err(error) => Outcome { shell, result: Err(error) },
    }
}

/// A request for a registered name whose window is not open creates exactly
/// one window, the one of that name, and raises the window count by exactly
/// one, provided the host succeeds.
pub proof fn lemma_first_request_creates_one_window(
    registry: Map<Seq<char>, Seq<char>>,
    shell: Shell,
    name: Seq<char>,
)
    requires
        registry.contains_key(name),
        !shell.open.contains(name),
    ensures
        plan_for(registry, name, shell.open.contains(name)) == Ok::<HostRequestView, ErrorView>(
            HostRequestView::Create { window: window_for(name, registry[name]) },
        ),
        request_window(registry, shell, name, Ok(())).shell.open == shell.open.insert(name),
        request_window(registry, shell, name, Ok(())).shell.open.difference(shell.open)
            == set![name],
        request_window(registry, shell, name, Ok(())).shell.count == shell.count + 1,
        request_window(registry, shell, name, Ok(())).result == Ok::<Seq<EmissionView>, ErrorView>(
            seq![notification(CMD_REQUEST@)],
        ),
{
    let after = request_window(registry, shell, name, Ok(())).shell;
    assert(after.open.difference(shell.open) =~= set![name]);
}

/// Two requests in a row for the same registered name create exactly one
/// window: the second finds the window open, focuses it, leaves the window
/// count alone and notifies the observer.
pub proof fn lemma_second_request_focuses(
    registry: Map<Seq<char>, Seq<char>>,
    shell: Shell,
    name: Seq<char>,
)
    requires
        registry.contains_key(name),
        !shell.open.contains(name),
    ensures
        ({
            let first = request_window(registry, shell, name, Ok(()));
            let second = request_window(registry, first.shell, name, Ok(()));
            &&& plan_for(registry, name, first.shell.open.contains(name)) == Ok::<
                HostRequestView,
                ErrorView,
            >(HostRequestView::Focus { label: name })
            &&& second.shell == first.shell
            &&& second.shell.open == shell.open.insert(name)
            &&& second.shell.open.difference(shell.open) == set![name]
            &&& second.shell.count == shell.count + 1
            &&& second.result == Ok::<Seq<EmissionView>, ErrorView>(
                seq![notification(WINDOW_CREATED@), notification(CMD_REQUEST@)],
            )
        }),
{
    lemma_first_request_creates_one_window(registry, shell, name);
}

/// A request for a name that is neither registered nor open fails with
/// `UnknownWindowName`, whatever the host would have replied, and leaves the
/// window count and the host's windows as they were.
pub proof fn lemma_unknown_name_changes_nothing(
    registry: Map<Seq<char>, Seq<char>>,
    shell: Shell,
    name: Seq<char>,
    reply: Result<(), Seq<char>>,
)
    requires
        !registry.contains_key(name),
        !shell.open.contains(name),
    ensures
        request_window(registry, shell, name, reply).result == Err::<Seq<EmissionView>, ErrorView>(
            ErrorView::UnknownWindowName { name },
        ),
        request_window(registry, shell, name, reply).shell == shell,
{
}

/// A request on which the host fails ends in `HostOperationFailure` with the
/// host's reason and leaves the window count and the host's windows as they
/// were.
pub proof fn lemma_host_failure_changes_nothing(
    registry: Map<Seq<char>, Seq<char>>,
    shell: Shell,
    name: Seq<char>,
    reason: Seq<char>,
)
    requires
        shell.open.contains(name) || registry.contains_key(name),
    ensures
        request_window(registry, shell, name, Err(reason)).result == Err::<
            Seq<EmissionView>,
            ErrorView,
        >(ErrorView::HostOperationFailure { name, reason }),
        request_window(registry, shell, name, Err(reason)).shell == shell,
{
}

/// Every request that the host carries out ends with a `cmd_request`
/// notification to the observer, whether a window was created or focused, and
/// sends nothing after it.
pub proof fn lemma_every_request_ends_with_cmd_request(request: HostRequestView)
    ensures
        notifications_for(request).len() >= 1,
        notifications_for(request).last() == notification(CMD_REQUEST@),
        settlement_for(request, Ok(())) == Ok::<Seq<EmissionView>, ErrorView>(
            notifications_for(request),
        ),
{
}

/// The window count never goes down, and a window that is open stays open,
/// whatever is requested and whatever the host replies.
pub proof fn lemma_request_only_grows(
    registry: Map<Seq<char>, Seq<char>>,
    shell: Shell,
    name: Seq<char>,
    reply: Result<(), Seq<char>>,
)
    ensures
        request_window(registry, shell, name, reply).shell.count >= shell.count,
        shell.open.subset_of(request_window(registry, shell, name, reply).shell.open),
{
}

} // verus!
