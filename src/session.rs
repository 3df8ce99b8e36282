//! The pipeline as a state machine. The session names the next operating
//! system action to perform; the caller performs it and hands back how it
//! went. Every handle that an action acquires is on the session's stack
//! until an explicit release, and every path, successful or not, releases
//! them all before it finishes.

use vstd::prelude::*;
use crate::protocol::CommandMessage;

verus! {

/// An operating system handle held by the session.
#[derive(Clone, Copy, Debug, PartialEq, Eq, Structural)]
pub enum Resource {
    /// The current process's security token.
    Token,
    /// The service manager.
    Manager,
    /// The component's service.
    Service,
    /// The service's configuration key.
    ServiceKey,
    /// The `Instances` key under it.
    InstancesKey,
    /// The named instance key under `Instances`.
    InstanceKey,
    /// The connection to the component's communication endpoint.
    Port,
}

/// Why the pipeline stopped.
#[derive(Clone, Copy, Debug, PartialEq, Eq, Structural)]
pub enum Failure {
    /// The component's image could not be staged.
    Provisioning,
    /// The token or the privilege could not be adjusted.
    Privilege,
    /// The service configuration could not be read or created.
    Registration,
    /// The component could not be loaded.
    Activation,
    /// The endpoint could not be reached or a command was refused.
    Channel,
}

/// How a finished pipeline ended.
#[derive(Clone, Copy, Debug, PartialEq, Eq, Structural)]
pub enum Outcome {
    Success,
    Failed(Failure),
}

/// How an action went.
#[derive(Clone, Copy, Debug, PartialEq, Eq, Structural)]
pub enum Event {
    /// It succeeded: an action that opens a handle now holds it, and
    /// `CheckImage` found the image in place.
    Succeeded,
    /// The thing looked for does not exist: the image for `CheckImage`, the
    /// registration for `OpenService`. Any other action takes it as a failure.
    NotFound,
    /// It failed.
    Failed,
}

/// What the caller performs next.
#[derive(Clone, Copy, Debug, PartialEq, Eq, Structural)]
pub enum Action {
    /// Open the current process's token for privilege adjustment.
    OpenToken,
    /// Look up the identifier of the load privilege.
    LookupPrivilege,
    /// Enable the load privilege on the token.
    EnablePrivilege,
    /// Tell whether the component's image is at its path.
    CheckImage,
    /// Write the component's image to its path.
    WriteImage,
    /// Open the service manager with the right to create services.
    OpenManager,
    /// Open the component's service.
    OpenService,
    /// Create the component's service from its registration.
    CreateService,
    /// Open the service's configuration key.
    OpenServiceKey,
    /// Create the `Instances` key.
    CreateInstancesKey,
    /// Create the named instance key.
    CreateInstanceKey,
    /// Write `DefaultInstance` under `Instances`.
    SetDefaultInstance,
    /// Write `Altitude` under the named instance.
    SetAltitude,
    /// Ask the system to load the component.
    LoadFilter,
    /// Connect to the component's communication endpoint.
    ConnectPort,
    /// Send a command over the connection.
    Send(CommandMessage),
    /// Release a handle. Its result does not matter: the handle is gone.
    Close(Resource),
    /// Nothing more to do.
    Finish(Outcome),
}

/// Where the session stands.
#[derive(Clone, Copy, Debug, PartialEq, Eq, Structural)]
pub enum Stage {
    OpenToken,
    LookupPrivilege,
    EnablePrivilege,
    CloseToken,
    CheckImage,
    WriteImage,
    OpenManager,
    OpenService,
    CreateService,
    OpenServiceKey,
    CreateInstancesKey,
    CreateInstanceKey,
    SetDefaultInstance,
    SetAltitude,
    CloseInstanceKey,
    CloseInstancesKey,
    CloseServiceKey,
    LoadFilter,
    CloseService,
    CloseManager,
    ConnectPort,
    SendTarget,
    SendEnable,
    ClosePort,
    /// Releasing what is held after a failure.
    Unwind(Failure),
    Finished(Outcome),
}

/// The mathematical model of a session.
pub struct SessionState {
    pub stage: Stage,
    /// Held handles, the most recently acquired last.
    pub held: Seq<Resource>,
    pub target_pid: u32,
    pub requester_pid: u32,
}

/// A running pipeline for one termination request.
pub struct Session {
    stage: Stage,
    held: Vec<Resource>,
    target_pid: u32,
    requester_pid: u32,
}

impl View for Session {
    type V = SessionState;

    closed spec fn view(&self) -> SessionState {
        SessionState {
            stage: self.stage,
            held: self.held@,
            target_pid: self.target_pid,
            requester_pid: self.requester_pid,
        }
    }
}

/// The state a session starts in.
pub open spec fn initial_state(target_pid: u32, requester_pid: u32) -> SessionState {
    SessionState { stage: Stage::OpenToken, held: Seq::empty(), target_pid, requester_pid }
}

/// The action a session in state `s` asks for.
pub open spec fn action_of(s: SessionState) -> Action {
    match s.stage {
        Stage::CheckImage => Action::CheckImage,
        Stage::WriteImage => Action::WriteImage,
        Stage::OpenToken => Action::OpenToken,
        Stage::LookupPrivilege => Action::LookupPrivilege,
        Stage::EnablePrivilege => Action::EnablePrivilege,
        Stage::OpenManager => Action::OpenManager,
        Stage::OpenService => Action::OpenService,
        Stage::CreateService => Action::CreateService,
        Stage::OpenServiceKey => Action::OpenServiceKey,
        Stage::CreateInstancesKey => Action::CreateInstancesKey,
        Stage::CreateInstanceKey => Action::CreateInstanceKey,
        Stage::SetDefaultInstance => Action::SetDefaultInstance,
        Stage::SetAltitude => Action::SetAltitude,
        Stage::LoadFilter => Action::LoadFilter,
        Stage::ConnectPort => Action::ConnectPort,
        Stage::SendTarget => Action::Send(
            CommandMessage::SetTerminationTarget { target_pid: s.target_pid },
        ),
        Stage::SendEnable => Action::Send(
            CommandMessage::EnableTermination { requester_pid: s.requester_pid },
        ),
        Stage::Finished(o) => Action::Finish(o),
        _ => Action::Close(s.held.last()),
    }
}

/// The handle that a successful `a` acquires, if any.
pub open spec fn acquired_by(a: Action) -> Option<Resource> {
    match a {
        Action::OpenToken => Some(Resource::Token),
        Action::OpenManager => Some(Resource::Manager),
        Action::OpenService => Some(Resource::Service),
        Action::CreateService => Some(Resource::Service),
        Action::OpenServiceKey => Some(Resource::ServiceKey),
        Action::CreateInstancesKey => Some(Resource::InstancesKey),
        Action::CreateInstanceKey => Some(Resource::InstanceKey),
        Action::ConnectPort => Some(Resource::Port),
        _ => None,
    }
}

/// Whether `a` releases a handle.
pub open spec fn releases_handle(a: Action) -> bool {
    a is Close
}

pub open spec fn goto(s: SessionState, stage: Stage) -> SessionState {
    SessionState { stage, ..s }
}

/// After a failure: release what is held, then finish with the failure.
pub open spec fn fail(s: SessionState, f: Failure) -> SessionState {
    if s.held.len() == 0 {
        goto(s, Stage::Finished(Outcome::Failed(f)))
    } else {
        goto(s, Stage::Unwind(f))
    }
}

/// An action that acquires nothing: on to `next` if it went well.
pub open spec fn proceed(s: SessionState, e: Event, next: Stage, f: Failure) -> SessionState {
    if e == Event::Succeeded {
        goto(s, next)
    } else {
        fail(s, f)
    }
}

/// An action that acquires `r`: hold it and go on to `next` if it went well.
pub open spec fn acquire(
    s: SessionState,
    e: Event,
    r: Resource,
    next: Stage,
    f: Failure,
) -> SessionState {
    if e == Event::Succeeded {
        SessionState { stage: next, held: s.held.push(r), ..s }
    } else {
        fail(s, f)
    }
}

/// A release of the most recent handle, whatever its result.
pub open spec fn release(s: SessionState, next: Stage) -> SessionState {
    SessionState { stage: next, held: s.held.drop_last(), ..s }
}

/// The state after the action of `s` went as `e` says.
pub open spec fn next_state(s: SessionState, e: Event) -> SessionState {
    match s.stage {
        Stage::CheckImage => if e == Event::NotFound {
            goto(s, Stage::WriteImage)
        } else {
            proceed(s, e, Stage::OpenManager, Failure::Provisioning)
        },
        Stage::WriteImage => proceed(s, e, Stage::OpenManager, Failure::Provisioning),
        Stage::OpenToken => acquire(
            s,
            e,
            Resource::Token,
            Stage::LookupPrivilege,
            Failure::Privilege,
        ),
        Stage::LookupPrivilege => proceed(s, e, Stage::EnablePrivilege, Failure::Privilege),
        Stage::EnablePrivilege => proceed(s, e, Stage::CloseToken, Failure::Privilege),
        Stage::CloseToken => release(s, Stage::CheckImage),
        Stage::OpenManager => acquire(
            s,
            e,
            Resource::Manager,
            Stage::OpenService,
            Failure::Registration,
        ),
        Stage::OpenService => if e == Event::NotFound {
            goto(s, Stage::CreateService)
        } else {
            acquire(s, e, Resource::Service, Stage::CloseService, Failure::Registration)
        },
        Stage::CreateService => acquire(
            s,
            e,
            Resource::Service,
            Stage::OpenServiceKey,
            Failure::Registration,
        ),
        Stage::OpenServiceKey => acquire(
            s,
            e,
            Resource::ServiceKey,
            Stage::CreateInstancesKey,
            Failure::Registration,
        ),
        Stage::CreateInstancesKey => acquire(
            s,
            e,
            Resource::InstancesKey,
            Stage::CreateInstanceKey,
            Failure::Registration,
        ),
        Stage::CreateInstanceKey => acquire(
            s,
            e,
            Resource::InstanceKey,
            Stage::SetDefaultInstance,
            Failure::Registration,
        ),
        Stage::SetDefaultInstance => proceed(s, e, Stage::SetAltitude, Failure::Registration),
        Stage::SetAltitude => proceed(s, e, Stage::CloseInstanceKey, Failure::Registration),
        Stage::CloseInstanceKey => release(s, Stage::CloseInstancesKey),
        Stage::CloseInstancesKey => release(s, Stage::CloseServiceKey),
        Stage::CloseServiceKey => release(s, Stage::LoadFilter),
        Stage::LoadFilter => proceed(s, e, Stage::CloseService, Failure::Activation),
        Stage::CloseService => release(s, Stage::CloseManager),
        Stage::CloseManager => release(s, Stage::ConnectPort),
        Stage::ConnectPort => acquire(s, e, Resource::Port, Stage::SendTarget, Failure::Channel),
        Stage::SendTarget => proceed(s, e, Stage::SendEnable, Failure::Channel),
        Stage::SendEnable => proceed(s, e, Stage::ClosePort, Failure::Channel),
        Stage::ClosePort => release(s, Stage::Finished(Outcome::Success)),
        Stage::Unwind(f) => if s.held.len() <= 1 {
            release(s, Stage::Finished(Outcome::Failed(f)))
        } else {
            release(s, Stage::Unwind(f))
        },
        Stage::Finished(_) => s,
    }
}

/// The number of handles held while the session stands at a stage of the
/// regular path.
pub open spec fn held_count(stage: Stage) -> nat {
    match stage {
        Stage::LookupPrivilege | Stage::EnablePrivilege | Stage::CloseToken => 1,
        Stage::OpenService | Stage::CreateService | Stage::CloseManager => 1,
        Stage::OpenServiceKey | Stage::LoadFilter | Stage::CloseService => 2,
        Stage::CreateInstancesKey | Stage::CloseServiceKey => 3,
        Stage::CreateInstanceKey | Stage::CloseInstancesKey => 4,
        Stage::SetDefaultInstance | Stage::SetAltitude | Stage::CloseInstanceKey => 5,
        Stage::SendTarget | Stage::SendEnable | Stage::ClosePort => 1,
        _ => 0,
    }
}

/// The session's invariant: as many handles are held as its stage says;
/// while unwinding at least one and at most five, once finished none.
pub open spec fn state_wf(s: SessionState) -> bool {
    match s.stage {
        Stage::Unwind(_) => 0 < s.held.len() <= 5,
        _ => s.held.len() == held_count(s.stage),
    }
}

/// Taking a step keeps the invariant, and changes the number of held handles
/// by one for each acquisition and release that the step makes.
pub proof fn lemma_step_wf(s: SessionState, e: Event)
    requires
        state_wf(s),
    ensures
        state_wf(next_state(s, e)),
        next_state(s, e).held.len() + (if releases_handle(action_of(s)) { 1int } else { 0int })
            == s.held.len() + (if acquired_by(action_of(s)).is_some() && e == Event::Succeeded {
            1int
        } else {
            0int
        }),
{
}

impl Session {
    /// A session that will have `target_pid` terminated on behalf of
    /// `requester_pid`.
    pub fn new(target_pid: u32, requester_pid: u32) -> (r: Session)
        ensures
            r@ == initial_state(target_pid, requester_pid),
            state_wf(r@),
    {
        Session { stage: Stage::OpenToken, held: Vec::new(), target_pid, requester_pid }
    }

    /// Where the session stands.
    pub fn stage(&self) -> (r: Stage)
        ensures
            r == self@.stage,
    {
        self.stage
    }

    /// The handles held, the most recently acquired last.
    pub fn held(&self) -> (r: &Vec<Resource>)
        ensures
            r@ == self@.held,
    {
        &self.held
    }

    /// How the session ended, once it has.
    pub fn outcome(&self) -> (r: Option<Outcome>)
        ensures
            r == (match self@.stage {
                Stage::Finished(o) => Some(o),
                _ => None,
            }),
    {
        match self.stage {
            Stage::Finished(o) => Some(o),
            _ => None,
        }
    }

    /// The action to perform next.
    pub fn action(&self) -> (r: Action)
        requires
            state_wf(self@),
        ensures
            r == action_of(self@),
    {
        match self.stage {
            Stage::CheckImage => Action::CheckImage,
            Stage::WriteImage => Action::WriteImage,
            Stage::OpenToken => Action::OpenToken,
            Stage::LookupPrivilege => Action::LookupPrivilege,
            Stage::EnablePrivilege => Action::EnablePrivilege,
            Stage::OpenManager => Action::OpenManager,
            Stage::OpenService => Action::OpenService,
            Stage::CreateService => Action::CreateService,
            Stage::OpenServiceKey => Action::OpenServiceKey,
            Stage::CreateInstancesKey => Action::CreateInstancesKey,
            Stage::CreateInstanceKey => Action::CreateInstanceKey,
            Stage::SetDefaultInstance => Action::SetDefaultInstance,
            Stage::SetAltitude => Action::SetAltitude,
            Stage::LoadFilter => Action::LoadFilter,
            Stage::ConnectPort => Action::ConnectPort,
            Stage::SendTarget => Action::Send(
                CommandMessage::set_termination_target(self.target_pid),
            ),
            Stage::SendEnable => Action::Send(
                CommandMessage::enable_termination(self.requester_pid),
            ),
            Stage::Finished(o) => Action::Finish(o),
            _ => Action::Close(self.held[self.held.len() - 1]),
        }
    }

    fn fail(&mut self, f: Failure)
        ensures
            final(self)@ == fail(old(self)@, f),
    {
        if self.held.len() == 0 {
            self.stage = Stage::Finished(Outcome::Failed(f));
        } else {
            self.stage = Stage::Unwind(f);
        }
    }

    fn proceed(&mut self, e: Event, next: Stage, f: Failure)
        ensures
            final(self)@ == proceed(old(self)@, e, next, f),
    {
        if e == Event::Succeeded {
            self.stage = next;
        } else {
            self.fail(f);
        }
    }

    fn acquire(&mut self, e: Event, r: Resource, next: Stage, f: Failure)
        ensures
            final(self)@ == acquire(old(self)@, e, r, next, f),
    {
        if e == Event::Succeeded {
            self.held.push(r);
            self.stage = next;
        } else {
            self.fail(f);
        }
    }

    fn release(&mut self, next: Stage)
        requires
            old(self)@.held.len() > 0,
        ensures
            final(self)@ == release(old(self)@, next),
    {
        self.held.pop();
        self.stage = next;
    }

    /// Records how the last action went and moves to the next stage.
    pub fn advance(&mut self, e: Event)
        requires
            state_wf(old(self)@),
        ensures
            final(self)@ == next_state(old(self)@, e),
            state_wf(final(self)@),
    {
        proof {
            lemma_step_wf(self@, e);
        }
        match self.stage {
            Stage::CheckImage => {
                if e == Event::NotFound {
                    self.stage = Stage::WriteImage;
                } else {
                    self.proceed(e, Stage::OpenManager, Failure::Provisioning);
                }
            },
            Stage::WriteImage => self.proceed(e, Stage::OpenManager, Failure::Provisioning),
            Stage::OpenToken => self.acquire(
                e,
                Resource::Token,
                Stage::LookupPrivilege,
                Failure::Privilege,
            ),
            Stage::LookupPrivilege => self.proceed(e, Stage::EnablePrivilege, Failure::Privilege),
            Stage::EnablePrivilege => self.proceed(e, Stage::CloseToken, Failure::Privilege),
            Stage::CloseToken => self.release(Stage::CheckImage),
            Stage::OpenManager => self.acquire(
                e,
                Resource::Manager,
                Stage::OpenService,
                Failure::Registration,
            ),
            Stage::OpenService => {
                if e == Event::NotFound {
                    self.stage = Stage::CreateService;
                } else {
                    self.acquire(e, Resource::Service, Stage::CloseService, Failure::Registration);
                }
            },
            Stage::CreateService => self.acquire(
                e,
                Resource::Service,
                Stage::OpenServiceKey,
                Failure::Registration,
            ),
            Stage::OpenServiceKey => self.acquire(
                e,
                Resource::ServiceKey,
                Stage::CreateInstancesKey,
                Failure::Registration,
            ),
            Stage::CreateInstancesKey => self.acquire(
                e,
                Resource::InstancesKey,
                Stage::CreateInstanceKey,
                Failure::Registration,
            ),
            Stage::CreateInstanceKey => self.acquire(
                e,
                Resource::InstanceKey,
                Stage::SetDefaultInstance,
                Failure::Registration,
            ),
            Stage::SetDefaultInstance => self.proceed(
                e,
                Stage::SetAltitude,
                Failure::Registration,
            ),
            Stage::SetAltitude => self.proceed(e, Stage::CloseInstanceKey, Failure::Registration),
            Stage::CloseInstanceKey => self.release(Stage::CloseInstancesKey),
            Stage::CloseInstancesKey => self.release(Stage::CloseServiceKey),
            Stage::CloseServiceKey => self.release(Stage::LoadFilter),
            Stage::LoadFilter => self.proceed(e, Stage::CloseService, Failure::Activation),
            Stage::CloseService => self.release(Stage::CloseManager),
            Stage::CloseManager => self.release(Stage::ConnectPort),
            Stage::ConnectPort => self.acquire(
                e,
                Resource::Port,
                Stage::SendTarget,
                Failure::Channel,
            ),
            Stage::SendTarget => self.proceed(e, Stage::SendEnable, Failure::Channel),
            Stage::SendEnable => self.proceed(e, Stage::ClosePort, Failure::Channel),
            Stage::ClosePort => self.release(Stage::Finished(Outcome::Success)),
            Stage::Unwind(f) => {
                if self.held.len() <= 1 {
                    self.release(Stage::Finished(Outcome::Failed(f)));
                } else {
                    self.release(Stage::Unwind(f));
                }
            },
            Stage::Finished(_) => {},
        }
    }
}

} // verus!
