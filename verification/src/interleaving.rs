//! Two requests that run at the same time.
//!
//! A request touches the shell twice: once when it asks whether its window is
//! open and plans, once when the host has acted and the window count is
//! settled. The second step needs the state exclusively, so the steps of two
//! requests can alternate in any order but never overlap. This module models
//! such runs and shows that two requests for different names do not disturb
//! each other, in whatever order their steps are taken. The host is taken to
//! succeed.

use crate::model::{shell_after, Shell};
use crate::orchestrator::{plan_for, window_for, HostRequestView};
use vstd::prelude::*;

verus! {

/// How far a request has come.
pub enum Progress {
    /// Nothing has happened yet.
    Waiting,
    /// The request has been planned; the host has not acted yet.
    Planned { request: HostRequestView },
    /// The request is over.
    Finished,
}

/// Two requests under way against one shell.
pub struct Race {
    pub shell: Shell,
    pub first: Progress,
    pub second: Progress,
}

/// The next step of the request for `name`: a waiting request is planned
/// against the shell as it is now, and is over at once if planning fails; a
/// planned request is carried out by the host and settled.
pub open spec fn advance(
    registry: Map<Seq<char>, Seq<char>>,
    shell: Shell,
    name: Seq<char>,
    progress: Progress,
) -> (Shell, Progress) {
    match progress {
        Progress::Waiting => match plan_for(registry, name, shell.open.contains(name)) {
            Ok(request) => (shell, Progress::Planned { request }),
            Err(_) => (shell, Progress::Finished),
        },
        Progress::Planned { request } => (shell_after(shell, request, true), Progress::Finished),
        Progress::Finished => (shell, Progress::Finished),
    }
}

/// One step of the race: the first request moves if `first_moves`, else the
/// second. The first is for the name `a`, the second for `b`.
pub open spec fn step(
    registry: Map<Seq<char>, Seq<char>>,
    race: Race,
    a: Seq<char>,
    b: Seq<char>,
    first_moves: bool,
) -> Race {
    if first_moves {
        let (shell, first) = advance(registry, race.shell, a, race.first);
        Race { shell, first, second: race.second }
    } else {
        let (shell, second) = advance(registry, race.shell, b, race.second);
        Race { shell, first: race.first, second }
    }
}

/// The race after the steps of `schedule`, taken from its front.
pub open spec fn run(
    registry: Map<Seq<char>, Seq<char>>,
    race: Race,
    a: Seq<char>,
    b: Seq<char>,
    schedule: Seq<bool>,
) -> Race
    decreases schedule.len(),
{
    if schedule.len() == 0 {
        race
    } else {
        run(registry, step(registry, race, a, b, schedule[0]), a, b, schedule.drop_first())
    }
}

/// The race before either request has moved.
pub open spec fn start(shell: Shell) -> Race {
    Race { shell, first: Progress::Waiting, second: Progress::Waiting }
}

/// How many windows a request has created so far, given that it creates one.
pub open spec fn created(progress: Progress) -> nat {
    if progress is Finished {
        1
    } else {
        0
    }
}

/// The open windows once the request for `name` has come as far as `progress`.
pub open spec fn opened(open: Set<Seq<char>>, name: Seq<char>, progress: Progress) -> Set<
    Seq<char>,
> {
    if progress is Finished {
        open.insert(name)
    } else {
        open
    }
}

/// A request for `name` that has been planned has been planned to create the
/// window of that name.
pub open spec fn plans_creation(
    registry: Map<Seq<char>, Seq<char>>,
    name: Seq<char>,
    progress: Progress,
) -> bool {
    progress matches Progress::Planned { request } ==> request == (HostRequestView::Create {
        window: window_for(name, registry[name]),
    })
}

/// What holds at every point of a race that began at `origin` with two
/// requests for different registered names whose windows were not open: each
/// request has added its own window and its own count once it is over, and
/// nothing before.
pub open spec fn undisturbed(
    registry: Map<Seq<char>, Seq<char>>,
    origin: Shell,
    race: Race,
    a: Seq<char>,
    b: Seq<char>,
) -> bool {
    &&& plans_creation(registry, a, race.first)
    &&& plans_creation(registry, b, race.second)
    &&& race.shell.count == origin.count + created(race.first) + created(race.second)
    &&& race.shell.open == opened(opened(origin.open, a, race.first), b, race.second)
}

/// Every step of a race keeps it undisturbed.
pub proof fn lemma_step_keeps_undisturbed(
    registry: Map<Seq<char>, Seq<char>>,
    origin: Shell,
    race: Race,
    a: Seq<char>,
    b: Seq<char>,
    first_moves: bool,
)
    requires
        a != b,
        registry.contains_key(a),
        registry.contains_key(b),
        !origin.open.contains(a),
        !origin.open.contains(b),
        undisturbed(registry, origin, race, a, b),
    ensures
        undisturbed(registry, origin, step(registry, race, a, b, first_moves), a, b),
{
    let next = step(registry, race, a, b, first_moves);
    assert(next.shell.open =~= opened(opened(origin.open, a, next.first), b, next.second));
}

/// Every schedule keeps a race undisturbed.
pub proof fn lemma_run_keeps_undisturbed(
    registry: Map<Seq<char>, Seq<char>>,
    origin: Shell,
    race: Race,
    a: Seq<char>,
    b: Seq<char>,
    schedule: Seq<bool>,
)
    requires
        a != b,
        registry.contains_key(a),
        registry.contains_key(b),
        !origin.open.contains(a),
        !origin.open.contains(b),
        undisturbed(registry, origin, race, a, b),
    ensures
        undisturbed(registry, origin, run(registry, race, a, b, schedule), a, b),
    decreases schedule.len(),
{
    if schedule.len() > 0 {
        lemma_step_keeps_undisturbed(registry, origin, race, a, b, schedule[0]);
        lemma_run_keeps_undisturbed(
            registry,
            origin,
            step(registry, race, a, b, schedule[0]),
            a,
            b,
            schedule.drop_first(),
        );
    }
}

/// Two requests for different registered names whose windows are not open
/// raise the window count by exactly two and open exactly their two windows,
/// in whatever order their steps are taken, once both are over.
pub proof fn lemma_distinct_requests_count_two(
    registry: Map<Seq<char>, Seq<char>>,
    shell: Shell,
    a: Seq<char>,
    b: Seq<char>,
    schedule: Seq<bool>,
)
    requires
        a != b,
        registry.contains_key(a),
        registry.contains_key(b),
        !shell.open.contains(a),
        !shell.open.contains(b),
        run(registry, start(shell), a, b, schedule).first is Finished,
        run(registry, start(shell), a, b, schedule).second is Finished,
    ensures
        run(registry, start(shell), a, b, schedule).shell.count == shell.count + 2,
        run(registry, start(shell), a, b, schedule).shell.open == shell.open.insert(a).insert(b),
        run(registry, start(shell), a, b, schedule).shell.open.difference(shell.open) == set![a, b],
{
    lemma_run_keeps_undisturbed(registry, shell, start(shell), a, b, schedule);
    let end = run(registry, start(shell), a, b, schedule).shell;
    assert(end.open.difference(shell.open) =~= set![a, b]);
}

/// A schedule in which each request moves twice brings both to their end, so
/// the races of which the law above speaks exist: here the two requests plan
/// one after the other before either is carried out.
pub proof fn lemma_alternating_schedule_finishes(
    registry: Map<Seq<char>, Seq<char>>,
    shell: Shell,
    a: Seq<char>,
    b: Seq<char>,
)
    requires
        a != b,
        registry.contains_key(a),
        registry.contains_key(b),
        !shell.open.contains(a),
        !shell.open.contains(b),
    ensures
        run(registry, start(shell), a, b, seq![true, false, true, false]).first is Finished,
        run(registry, start(shell), a, b, seq![true, false, true, false]).second is Finished,
{
    let schedule = seq![true, false, true, false];
    let r0 = start(shell);
    let r1 = step(registry, r0, a, b, true);
    let r2 = step(registry, r1, a, b, false);
    let r3 = step(registry, r2, a, b, true);
    let r4 = step(registry, r3, a, b, false);
    let s1 = schedule.drop_first();
    let s2 = s1.drop_first();
    let s3 = s2.drop_first();
    let s4 = s3.drop_first();
    assert(s4.len() == 0);
    assert(run(registry, r4, a, b, s4) == r4);
    assert(run(registry, r3, a, b, s3) == r4);
    assert(run(registry, r2, a, b, s2) == r4);
    assert(run(registry, r1, a, b, s1) == r4);
    assert(run(registry, r0, a, b, schedule) == r4);
}

} // verus!
