//! Runs of a session over a sequence of events, and what holds of every run.

use vstd::prelude::*;
use crate::protocol::CommandMessage;
use crate::session::{
    acquired_by, action_of, initial_state, lemma_step_wf, next_state, releases_handle, state_wf,
    Action, Event, Failure, Outcome, SessionState, Stage,
};

verus! {

/// The state after the session in state `s` met the events `evs` in order.
pub open spec fn run(s: SessionState, evs: Seq<Event>) -> SessionState
    decreases evs.len(),
{
    if evs.len() == 0 {
        s
    } else {
        run(next_state(s, evs[0]), evs.drop_first())
    }
}

/// The actions asked for along that run, one per event.
pub open spec fn actions(s: SessionState, evs: Seq<Event>) -> Seq<Action>
    decreases evs.len(),
{
    if evs.len() == 0 {
        Seq::empty()
    } else {
        seq![action_of(s)] + actions(next_state(s, evs[0]), evs.drop_first())
    }
}

/// How many handles were acquired along that run.
pub open spec fn acquisitions(s: SessionState, evs: Seq<Event>) -> nat
    decreases evs.len(),
{
    if evs.len() == 0 {
        0
    } else {
        (if acquired_by(action_of(s)).is_some() && evs[0] == Event::Succeeded {
            1nat
        } else {
            0nat
        }) + acquisitions(next_state(s, evs[0]), evs.drop_first())
    }
}

/// How many handles were released along that run.
pub open spec fn releases(s: SessionState, evs: Seq<Event>) -> nat
    decreases evs.len(),
{
    if evs.len() == 0 {
        0
    } else {
        (if releases_handle(action_of(s)) {
            1nat
        } else {
            0nat
        }) + releases(next_state(s, evs[0]), evs.drop_first())
    }
}

proof fn lemma_run_counts(s: SessionState, evs: Seq<Event>)
    requires
        state_wf(s),
    ensures
        state_wf(run(s, evs)),
        acquisitions(s, evs) + s.held.len() == releases(s, evs) + run(s, evs).held.len(),
    decreases evs.len(),
{
    if evs.len() > 0 {
        lemma_step_wf(s, evs[0]);
        lemma_run_counts(next_state(s, evs[0]), evs.drop_first());
    }
}

/// Whatever the operating system answers, a session that has finished has
/// released exactly as many handles as it acquired.
pub proof fn lemma_handles_balanced(target_pid: u32, requester_pid: u32, evs: Seq<Event>)
    ensures
        run(initial_state(target_pid, requester_pid), evs).stage is Finished ==> acquisitions(
            initial_state(target_pid, requester_pid),
            evs,
        ) == releases(initial_state(target_pid, requester_pid), evs),
        run(initial_state(target_pid, requester_pid), evs).stage is Finished ==> run(
            initial_state(target_pid, requester_pid),
            evs,
        ).held.len() == 0,
{
    lemma_run_counts(initial_state(target_pid, requester_pid), evs);
}

/// How many steps a regular stage is from the end of the longest path.
pub open spec fn steps_left(stage: Stage) -> nat {
    match stage {
        Stage::OpenToken => 24,
        Stage::LookupPrivilege => 23,
        Stage::EnablePrivilege => 22,
        Stage::CloseToken => 21,
        Stage::CheckImage => 20,
        Stage::WriteImage => 19,
        Stage::OpenManager => 18,
        Stage::OpenService => 17,
        Stage::CreateService => 16,
        Stage::OpenServiceKey => 15,
        Stage::CreateInstancesKey => 14,
        Stage::CreateInstanceKey => 13,
        Stage::SetDefaultInstance => 12,
        Stage::SetAltitude => 11,
        Stage::CloseInstanceKey => 10,
        Stage::CloseInstancesKey => 9,
        Stage::CloseServiceKey => 8,
        Stage::LoadFilter => 7,
        Stage::CloseService => 6,
        Stage::CloseManager => 5,
        Stage::ConnectPort => 4,
        Stage::SendTarget => 3,
        Stage::SendEnable => 2,
        Stage::ClosePort => 1,
        _ => 0,
    }
}

/// A bound on the number of steps before the session finishes.
pub open spec fn rank(s: SessionState) -> nat {
    match s.stage {
        Stage::Finished(_) => 0,
        Stage::Unwind(_) => s.held.len(),
        _ => 5 + steps_left(s.stage),
    }
}

proof fn lemma_step_rank(s: SessionState, e: Event)
    requires
        state_wf(s),
        !(s.stage is Finished),
    ensures
        rank(next_state(s, e)) < rank(s),
{
}

proof fn lemma_run_finishes(s: SessionState, evs: Seq<Event>)
    requires
        state_wf(s),
        evs.len() >= rank(s),
    ensures
        run(s, evs).stage is Finished,
    decreases evs.len(),
{
    if evs.len() == 0 {
    } else if s.stage is Finished {
        lemma_run_finished_stays(s, evs);
    } else {
        lemma_step_rank(s, evs[0]);
        lemma_step_wf(s, evs[0]);
        lemma_run_finishes(next_state(s, evs[0]), evs.drop_first());
    }
}

proof fn lemma_run_finished_stays(s: SessionState, evs: Seq<Event>)
    requires
        s.stage is Finished,
    ensures
        run(s, evs) == s,
    decreases evs.len(),
{
    if evs.len() > 0 {
        lemma_run_finished_stays(next_state(s, evs[0]), evs.drop_first());
    }
}

/// Whatever the operating system answers, a session finishes within 29
/// actions, and by then it has released every handle it acquired.
pub proof fn lemma_every_path_releases(target_pid: u32, requester_pid: u32, evs: Seq<Event>)
    requires
        evs.len() >= 29,
    ensures
        run(initial_state(target_pid, requester_pid), evs).stage is Finished,
        acquisitions(initial_state(target_pid, requester_pid), evs) == releases(
            initial_state(target_pid, requester_pid),
            evs,
        ),
{
    lemma_run_finishes(initial_state(target_pid, requester_pid), evs);
    lemma_handles_balanced(target_pid, requester_pid, evs);
}

/// The privilege was adjusted and nothing has failed on it.
pub open spec fn past_privilege(stage: Stage) -> bool {
    match stage {
        Stage::OpenToken | Stage::LookupPrivilege | Stage::EnablePrivilege => false,
        Stage::Unwind(f) => f != Failure::Privilege,
        Stage::Finished(o) => o != Outcome::Failed(Failure::Privilege),
        _ => true,
    }
}

proof fn lemma_run_past_privilege(s: SessionState, evs: Seq<Event>)
    requires
        past_privilege(s.stage),
    ensures
        past_privilege(run(s, evs).stage),
    decreases evs.len(),
{
    if evs.len() > 0 {
        lemma_run_past_privilege(next_state(s, evs[0]), evs.drop_first());
    }
}

proof fn lemma_change_after_privilege(s: SessionState, evs: Seq<Event>, k: int)
    requires
        0 <= k < evs.len(),
        changes_system(actions(s, evs)[k]),
    ensures
        past_privilege(run(s, evs).stage),
    decreases evs.len(),
{
    let t = next_state(s, evs[0]);
    let rest = evs.drop_first();
    lemma_actions_len(s, evs);
    lemma_actions_len(t, rest);
    assert(actions(s, evs) == seq![action_of(s)] + actions(t, rest));
    if k == 0 {
        assert(actions(s, evs)[0] == action_of(s));
        lemma_run_past_privilege(s, evs);
    } else {
        assert(actions(s, evs)[k] == actions(t, rest)[k - 1]);
        lemma_change_after_privilege(t, rest, k - 1);
    }
}

/// A run that ends in a privilege failure changed nothing persistent: it
/// wrote no image, created and configured no registration, loaded nothing.
pub proof fn lemma_privilege_failure_changes_nothing(
    target_pid: u32,
    requester_pid: u32,
    evs: Seq<Event>,
)
    requires
        run(initial_state(target_pid, requester_pid), evs).stage == Stage::Finished(
            Outcome::Failed(Failure::Privilege),
        ),
    ensures
        forall|k: int|
            0 <= k < evs.len() ==> !changes_system(
                #[trigger] actions(initial_state(target_pid, requester_pid), evs)[k],
            ),
{
    assert forall|k: int|
        0 <= k < evs.len() implies !changes_system(
        #[trigger] actions(initial_state(target_pid, requester_pid), evs)[k],
    ) by {
        if changes_system(actions(initial_state(target_pid, requester_pid), evs)[k]) {
            lemma_change_after_privilege(initial_state(target_pid, requester_pid), evs, k);
        }
    }
}

/// `a` sends the record that designates `pid`.
pub open spec fn sends_target(a: Action, pid: u32) -> bool {
    a == Action::Send(CommandMessage::SetTerminationTarget { target_pid: pid })
}

/// `a` sends the authorizing record.
pub open spec fn sends_enable(a: Action) -> bool {
    a is Send && a->Send_0 is EnableTermination
}

proof fn lemma_actions_len(s: SessionState, evs: Seq<Event>)
    ensures
        actions(s, evs).len() == evs.len(),
    decreases evs.len(),
{
    if evs.len() > 0 {
        lemma_actions_len(next_state(s, evs[0]), evs.drop_first());
    }
}

proof fn lemma_enable_after_target_from(s: SessionState, evs: Seq<Event>, k: int)
    requires
        s.stage != Stage::SendEnable,
        0 <= k < evs.len(),
        sends_enable(actions(s, evs)[k]),
    ensures
        exists|j: int|
            0 <= j < k && sends_target(#[trigger] actions(s, evs)[j], s.target_pid)
                && evs[j] == Event::Succeeded,
    decreases evs.len(),
{
    let t = next_state(s, evs[0]);
    let rest = evs.drop_first();
    lemma_actions_len(s, evs);
    lemma_actions_len(t, rest);
    assert(actions(s, evs) == seq![action_of(s)] + actions(t, rest));
    if k == 0 {
        assert(actions(s, evs)[0] == action_of(s));
    } else {
        assert(actions(s, evs)[k] == actions(t, rest)[k - 1]);
        if t.stage == Stage::SendEnable {
            assert(sends_target(actions(s, evs)[0], s.target_pid));
        } else {
            lemma_enable_after_target_from(t, rest, k - 1);
            let j = choose|j: int|
                0 <= j < k - 1 && sends_target(#[trigger] actions(t, rest)[j], t.target_pid)
                    && rest[j] == Event::Succeeded;
            assert(actions(s, evs)[j + 1] == actions(t, rest)[j]);
        }
    }
}

/// Along any run, the authorizing record is asked for only after the record
/// that designates the target was sent and acknowledged.
pub proof fn lemma_target_before_enable(
    target_pid: u32,
    requester_pid: u32,
    evs: Seq<Event>,
    k: int,
)
    requires
        0 <= k < evs.len(),
        sends_enable(actions(initial_state(target_pid, requester_pid), evs)[k]),
    ensures
        exists|j: int|
            0 <= j < k && sends_target(
                #[trigger] actions(initial_state(target_pid, requester_pid), evs)[j],
                target_pid,
            ) && evs[j] == Event::Succeeded,
{
    lemma_enable_after_target_from(initial_state(target_pid, requester_pid), evs, k);
}

/// The persistent system state that the pipeline changes.
pub struct World {
    /// The component's image is on disk.
    pub image_present: bool,
    /// The component's service is registered.
    pub registered: bool,
    /// The component is loaded and its endpoint accepts connections.
    pub loaded: bool,
}

/// How a system that permits every step answers `a`, and what the step does to it.
pub open spec fn respond(w: World, a: Action) -> (World, Event) {
    match a {
        Action::CheckImage => (w, if w.image_present { Event::Succeeded } else { Event::NotFound }),
        Action::WriteImage => (World { image_present: true, ..w }, Event::Succeeded),
        Action::OpenService => (w, if w.registered { Event::Succeeded } else { Event::NotFound }),
        Action::CreateService => (World { registered: true, ..w }, Event::Succeeded),
        Action::LoadFilter => (World { loaded: true, ..w }, Event::Succeeded),
        Action::ConnectPort => (w, if w.loaded { Event::Succeeded } else { Event::Failed }),
        _ => (w, Event::Succeeded),
    }
}

/// Whether `a` changes persistent system state: the image on disk, the
/// service registration and its configuration, or the loaded components.
pub open spec fn changes_system(a: Action) -> bool {
    ||| a is WriteImage
    ||| a is CreateService
    ||| a is CreateInstancesKey
    ||| a is CreateInstanceKey
    ||| a is SetDefaultInstance
    ||| a is SetAltitude
    ||| a is LoadFilter
}

/// Drives the session in state `s` against the system `w` for at most
/// `steps` actions, or until it finishes: the final system, the final
/// session, and how many of the actions changed the system.
pub open spec fn simulate(w: World, s: SessionState, steps: nat) -> (World, SessionState, nat)
    decreases steps,
{
    if steps == 0 || s.stage is Finished {
        (w, s, 0)
    } else {
        let a = action_of(s);
        let (w2, e) = respond(w, a);
        let r = simulate(w2, next_state(s, e), (steps - 1) as nat);
        (r.0, r.1, r.2 + if changes_system(a) { 1nat } else { 0nat })
    }
}

/// The number of actions a session takes at most.
pub open spec fn longest_run() -> nat {
    24
}

/// Simulating `k + m` steps is simulating `k` steps, then `m` more.
proof fn lemma_simulate_compose(w: World, s: SessionState, k: nat, m: nat)
    ensures
        ({
            let p = simulate(w, s, k);
            let q = simulate(p.0, p.1, m);
            simulate(w, s, k + m) == (q.0, q.1, p.2 + q.2)
        }),
    decreases k,
{
    if k > 0 && !(s.stage is Finished) {
        let (w2, e) = respond(w, action_of(s));
        lemma_simulate_compose(w2, next_state(s, e), (k - 1) as nat, m);
        assert((k + m - 1) as nat == (k - 1) as nat + m);
    } else if k == 0 {
        assert(simulate(w, s, 0) == (w, s, 0nat));
    }
}

/// Adjusting the privilege.
proof fn lemma_phase_privilege(w: World, s: SessionState)
    requires
        s.stage == Stage::OpenToken,
        s.held.len() == 0,
    ensures
        simulate(w, s, 4).0 == w,
        simulate(w, s, 4).1.stage == Stage::CheckImage,
        simulate(w, s, 4).1.held.len() == 0,
        simulate(w, s, 4).2 == 0,
{
    reveal_with_fuel(simulate, 5);
}

/// Staging the image.
proof fn lemma_phase_stage(w: World, s: SessionState)
    requires
        s.stage == Stage::CheckImage,
        s.held.len() == 0,
    ensures
        ({
            let p = simulate(w, s, if w.image_present { 1 } else { 2 });
            &&& p.0 == World { image_present: true, ..w }
            &&& p.1.stage == Stage::OpenManager
            &&& p.1.held.len() == 0
            &&& p.2 == if w.image_present { 0nat } else { 1nat }
        }),
{
    reveal_with_fuel(simulate, 3);
}

/// Adjusting the privilege, then staging the image.
proof fn lemma_phase_prepare(w: World, s: SessionState)
    requires
        s.stage == Stage::OpenToken,
        s.held.len() == 0,
    ensures
        ({
            let p = simulate(w, s, if w.image_present { 5 } else { 6 });
            &&& p.0 == World { image_present: true, ..w }
            &&& p.1.stage == Stage::OpenManager
            &&& p.1.held.len() == 0
            &&& p.2 == if w.image_present { 0nat } else { 1nat }
        }),
{
    let k: nat = if w.image_present { 1 } else { 2 };
    lemma_phase_privilege(w, s);
    lemma_simulate_compose(w, s, 4, k);
    let p = simulate(w, s, 4);
    lemma_phase_stage(p.0, p.1);
}

/// Staging the image twice: the first time leaves it in place, the second
/// finds it there, writes nothing and leaves the system as it was.
pub proof fn lemma_staging_idempotent(w: World, s: SessionState)
    requires
        s.stage == Stage::CheckImage,
        s.held.len() == 0,
    ensures
        ({
            let first = simulate(w, s, if w.image_present { 1 } else { 2 });
            let second = simulate(first.0, s, 1);
            &&& first.0.image_present
            &&& first.1.stage == Stage::OpenManager
            &&& second.1.stage == Stage::OpenManager
            &&& second.0 == first.0
            &&& second.2 == 0
        }),
{
    lemma_phase_stage(w, s);
    let first = simulate(w, s, if w.image_present { 1 } else { 2 });
    lemma_phase_stage(first.0, s);
}

/// Opening a service that is registered.
proof fn lemma_phase_open(w: World, s: SessionState)
    requires
        s.stage == Stage::OpenManager,
        s.held.len() == 0,
        w.registered,
    ensures
        ({
            let p = simulate(w, s, 2);
            &&& p.0 == w
            &&& p.1.stage == Stage::CloseService
            &&& p.1.held.len() == 2
            &&& p.2 == 0
        }),
{
    reveal_with_fuel(simulate, 3);
}

/// Creating the registration and its instance keys.
proof fn lemma_phase_create(w: World, s: SessionState)
    requires
        s.stage == Stage::OpenManager,
        s.held.len() == 0,
        !w.registered,
    ensures
        ({
            let p = simulate(w, s, 6);
            &&& p.0 == World { registered: true, ..w }
            &&& p.1.stage == Stage::SetDefaultInstance
            &&& p.1.held.len() == 5
            &&& p.2 == 3
        }),
{
    reveal_with_fuel(simulate, 7);
}

/// Writing the instance values.
proof fn lemma_phase_values(w: World, s: SessionState)
    requires
        s.stage == Stage::SetDefaultInstance,
        s.held.len() == 5,
    ensures
        simulate(w, s, 2).0 == w,
        simulate(w, s, 2).1.stage == Stage::CloseInstanceKey,
        simulate(w, s, 2).1.held.len() == 5,
        simulate(w, s, 2).2 == 2,
{
    reveal_with_fuel(simulate, 3);
}

/// Releasing the three configuration keys.
proof fn lemma_phase_close_keys(w: World, s: SessionState)
    requires
        s.stage == Stage::CloseInstanceKey,
        s.held.len() == 5,
    ensures
        simulate(w, s, 3).0 == w,
        simulate(w, s, 3).1.stage == Stage::LoadFilter,
        simulate(w, s, 3).1.held.len() == 2,
        simulate(w, s, 3).2 == 0,
{
    let s1 = next_state(s, Event::Succeeded);
    let s2 = next_state(s1, Event::Succeeded);
    let s3 = next_state(s2, Event::Succeeded);
    assert(s1.held.len() == 4);
    assert(s2.held.len() == 3);
    assert(s3.held.len() == 2);
    assert(simulate(w, s3, 0) == (w, s3, 0nat));
    assert(simulate(w, s2, 1) == (w, s3, 0nat));
    assert(simulate(w, s1, 2) == (w, s3, 0nat));
}

/// Loading the component.
proof fn lemma_phase_load(w: World, s: SessionState)
    requires
        s.stage == Stage::LoadFilter,
        s.held.len() == 2,
    ensures
        simulate(w, s, 1).0 == (World { loaded: true, ..w }),
        simulate(w, s, 1).1.stage == Stage::CloseService,
        simulate(w, s, 1).1.held.len() == 2,
        simulate(w, s, 1).2 == 1,
{
    reveal_with_fuel(simulate, 2);
}

/// Writing the instance values, releasing the keys and loading.
proof fn lemma_phase_configure(w: World, s: SessionState)
    requires
        s.stage == Stage::SetDefaultInstance,
        s.held.len() == 5,
    ensures
        ({
            let p = simulate(w, s, 6);
            &&& p.0 == World { loaded: true, ..w }
            &&& p.1.stage == Stage::CloseService
            &&& p.1.held.len() == 2
            &&& p.2 == 3
        }),
{
    lemma_phase_values(w, s);
    lemma_simulate_compose(w, s, 2, 4);
    let p1 = simulate(w, s, 2);
    lemma_phase_close_keys(p1.0, p1.1);
    lemma_simulate_compose(p1.0, p1.1, 3, 1);
    let p2 = simulate(p1.0, p1.1, 3);
    lemma_phase_load(p2.0, p2.1);
}

/// Releasing the service handles.
proof fn lemma_phase_close_service(w: World, s: SessionState)
    requires
        s.stage == Stage::CloseService,
        s.held.len() == 2,
    ensures
        simulate(w, s, 2).0 == w,
        simulate(w, s, 2).1.stage == Stage::ConnectPort,
        simulate(w, s, 2).1.held.len() == 0,
        simulate(w, s, 2).2 == 0,
{
    let s1 = next_state(s, Event::Succeeded);
    let s2 = next_state(s1, Event::Succeeded);
    assert(s1.held.len() == 1);
    assert(s2.held.len() == 0);
    assert(simulate(w, s2, 0) == (w, s2, 0nat));
    assert(simulate(w, s1, 1) == (w, s2, 0nat));
}

/// Connecting to the loaded component and sending both records.
proof fn lemma_phase_send(w: World, s: SessionState)
    requires
        s.stage == Stage::ConnectPort,
        s.held.len() == 0,
        w.loaded,
    ensures
        simulate(w, s, 4).0 == w,
        simulate(w, s, 4).1.stage == Stage::Finished(Outcome::Success),
        simulate(w, s, 4).2 == 0,
{
    reveal_with_fuel(simulate, 5);
}

/// Releasing the service handles and speaking to the loaded component.
proof fn lemma_phase_command(w: World, s: SessionState, rest: nat)
    requires
        s.stage == Stage::CloseService,
        s.held.len() == 2,
        w.loaded,
    ensures
        ({
            let p = simulate(w, s, 6 + rest);
            &&& p.0 == w
            &&& p.1.stage == Stage::Finished(Outcome::Success)
            &&& p.2 == 0
        }),
{
    lemma_phase_close_service(w, s);
    lemma_simulate_compose(w, s, 2, 4 + rest);
    let p1 = simulate(w, s, 2);
    lemma_phase_send(p1.0, p1.1);
    lemma_simulate_compose(p1.0, p1.1, 4, rest);
    let p2 = simulate(p1.0, p1.1, 4);
    assert(simulate(p2.0, p2.1, rest) == (p2.0, p2.1, 0nat));
}

/// Opening or registering and loading the component, then releasing the
/// service handles.
proof fn lemma_phase_activate(w: World, s: SessionState)
    requires
        s.stage == Stage::OpenManager,
        s.held.len() == 0,
    ensures
        ({
            let p = simulate(w, s, if w.registered { 4 } else { 14 });
            &&& p.1.stage == Stage::ConnectPort
            &&& p.1.held.len() == 0
            &&& p.0 == if w.registered {
                w
            } else {
                World { registered: true, loaded: true, ..w }
            }
            &&& p.2 == if w.registered { 0nat } else { 6nat }
        }),
{
    if w.registered {
        lemma_phase_open(w, s);
        lemma_simulate_compose(w, s, 2, 2);
        let p1 = simulate(w, s, 2);
        lemma_phase_close_service(p1.0, p1.1);
    } else {
        lemma_phase_create(w, s);
        lemma_simulate_compose(w, s, 6, 8);
        let p1 = simulate(w, s, 6);
        lemma_phase_configure(p1.0, p1.1);
        lemma_simulate_compose(p1.0, p1.1, 6, 2);
        let p2 = simulate(p1.0, p1.1, 6);
        lemma_phase_close_service(p2.0, p2.1);
    }
}

/// Activating twice: the first activation leaves the component registered,
/// the second finds the registration, creates and loads nothing and leaves
/// the system as it was.
pub proof fn lemma_activation_idempotent(w: World, s: SessionState)
    requires
        s.stage == Stage::OpenManager,
        s.held.len() == 0,
    ensures
        ({
            let first = simulate(w, s, if w.registered { 4 } else { 14 });
            let second = simulate(first.0, s, 4);
            &&& first.0.registered
            &&& first.1.stage == Stage::ConnectPort
            &&& second.1.stage == Stage::ConnectPort
            &&& second.0 == first.0
            &&& second.2 == 0
        }),
{
    lemma_phase_activate(w, s);
    let first = simulate(w, s, if w.registered { 4 } else { 14 });
    lemma_phase_activate(first.0, s);
}

proof fn lemma_first_run(w: World, s: SessionState)
    requires
        w.registered ==> w.loaded,
        s.stage == Stage::OpenToken,
        s.held.len() == 0,
    ensures
        simulate(w, s, longest_run()).0 == (World {
            image_present: true,
            registered: true,
            loaded: true,
        }),
        simulate(w, s, longest_run()).1.stage == Stage::Finished(Outcome::Success),
        w == (World { image_present: true, registered: true, loaded: true })
            ==> simulate(w, s, longest_run()).2 == 0,
{
    let k1: nat = if w.image_present { 5 } else { 6 };
    lemma_phase_prepare(w, s);
    lemma_simulate_compose(w, s, k1, (24 - k1) as nat);
    let p1 = simulate(w, s, k1);
    if w.registered {
        lemma_phase_open(p1.0, p1.1);
        lemma_simulate_compose(p1.0, p1.1, 2, (22 - k1) as nat);
        let p2 = simulate(p1.0, p1.1, 2);
        lemma_phase_command(p2.0, p2.1, (16 - k1) as nat);
    } else {
        lemma_phase_create(p1.0, p1.1);
        lemma_simulate_compose(p1.0, p1.1, 6, (18 - k1) as nat);
        let p2 = simulate(p1.0, p1.1, 6);
        lemma_phase_configure(p2.0, p2.1);
        lemma_simulate_compose(p2.0, p2.1, 6, (12 - k1) as nat);
        let p3 = simulate(p2.0, p2.1, 6);
        lemma_phase_command(p3.0, p3.1, (6 - k1) as nat);
    }
}

/// Running the pipeline twice against a system that permits every step
/// succeeds both times; the second run finds everything in place, changes
/// nothing and leaves the system as the first left it. The system must not
/// hold a registration of the component that is not loaded.
pub proof fn lemma_idempotent(w: World, target_pid: u32, requester_pid: u32)
    requires
        w.registered ==> w.loaded,
    ensures
        ({
            let first = simulate(w, initial_state(target_pid, requester_pid), longest_run());
            let second = simulate(first.0, initial_state(target_pid, requester_pid), longest_run());
            &&& first.1.stage == Stage::Finished(Outcome::Success)
            &&& second.1.stage == Stage::Finished(Outcome::Success)
            &&& first.0 == (World { image_present: true, registered: true, loaded: true })
            &&& second.0 == first.0
            &&& second.2 == 0
        }),
{
    let s = initial_state(target_pid, requester_pid);
    lemma_first_run(w, s);
    lemma_first_run(simulate(w, s, longest_run()).0, s);
}

} // verus!
