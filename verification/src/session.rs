//! The life of a device session, from the open handle to its release.
//!
//! A session takes the interface from a kernel driver that holds it,
//! activates the configuration, claims the interface, selects the
//! alternate setting and sends the idle request. It then lets the control
//! loop run. When the loop ends, or when a step fails that the session
//! cannot do without, it gives back what it has taken: it releases the
//! interface it claimed and attaches the kernel driver it detached.

use crate::endpoint::EndpointSelection;
use crate::error::SetupError;
use crate::protocol::{idle_request, idle_request_spec, ControlRequest};
use vstd::prelude::*;

verus! {

/// The interface whose kernel driver stands in the controller's way.
pub const DRIVER_INTERFACE: u8 = 0;

/// Where a session stands.
#[derive(Clone, Copy, Debug, PartialEq, Eq, Structural)]
pub enum SessionStage {
    /// Ask whether a kernel driver holds the interface.
    DriverQuery,
    /// Detach the kernel driver.
    DriverDetach,
    /// Activate the configuration.
    Activate,
    /// Claim the interface.
    Claim,
    /// Select the alternate setting.
    Select,
    /// Send the idle request.
    Idle,
    /// Run the control loop.
    Ready,
    /// Release the claimed interface.
    Release,
    /// Attach the kernel driver again.
    Reattach,
    /// Nothing is held any more.
    Closed,
}

/// The operation that a session asks for, or its end.
#[derive(Clone, Copy, Debug, PartialEq, Eq, Structural)]
pub enum SessionCommand {
    QueryKernelDriver { iface: u8 },
    DetachKernelDriver { iface: u8 },
    SetActiveConfiguration { config: u8 },
    ClaimInterface { iface: u8 },
    SetAlternateSetting { iface: u8, setting: u8 },
    /// Send a control request, with the transfer timeout.
    SendControl { request: ControlRequest },
    /// Run the control loop on these endpoint addresses.
    RunControlLoop { outbound: u8, inbound: u8 },
    ReleaseInterface { iface: u8 },
    AttachKernelDriver { iface: u8 },
    /// The session is closed and nothing went wrong.
    Finished,
    /// The session is closed; `error` is the first thing that went wrong.
    Failed { error: SetupError },
}

/// What came of the operation that a session asked for.
#[derive(Clone, Copy, Debug, PartialEq, Eq, Structural)]
pub enum SessionOutcome {
    /// Whether a kernel driver holds the interface; `None` where the
    /// question could not be answered.
    DriverActive { active: Option<bool> },
    /// Whether the operation succeeded.
    Completed { ok: bool },
    /// The control loop has ended.
    LoopEnded,
}

/// What the caller is to tell the operator after an outcome.
#[derive(Clone, Copy, Debug, PartialEq, Eq, Structural)]
pub enum Notice {
    Nothing,
    /// Whether a kernel driver was detached.
    KernelDriver { detached: bool },
    /// The configuration could not be activated; the session goes on.
    ActivationFailed,
    /// The interface could not be claimed; the session goes on.
    ClaimFailed,
}

/// The state of a session.
#[derive(Clone, Copy, Debug, PartialEq, Eq, Structural)]
pub struct SessionState {
    /// The endpoints that the session is set up for.
    pub selection: EndpointSelection,
    pub stage: SessionStage,
    /// Whether a kernel driver is detached and has to be attached again.
    pub driver_detached: bool,
    /// Whether the interface is claimed and has to be released.
    pub claimed: bool,
    /// The first failure that the session could not pass over.
    pub failure: Option<SetupError>,
}

impl SessionState {
    /// The state of a session on a handle that was just opened.
    pub open spec fn initial(selection: EndpointSelection) -> SessionState {
        SessionState {
            selection,
            stage: SessionStage::DriverQuery,
            driver_detached: false,
            claimed: false,
            failure: None,
        }
    }

    /// What each stage allows the session to hold. Before the claim no
    /// interface is held, and before the driver is dealt with nothing is.
    /// While the setup or the loop goes on, no failure is recorded. The
    /// interface is released only where it is held, the driver attached
    /// only where it is detached and the interface is not held, and a
    /// closed session holds nothing.
    pub open spec fn wf(self) -> bool {
        match self.stage {
            SessionStage::DriverQuery | SessionStage::DriverDetach => {
                !self.driver_detached && !self.claimed && self.failure is None
            },
            SessionStage::Activate | SessionStage::Claim => {
                !self.claimed && self.failure is None
            },
            SessionStage::Select | SessionStage::Idle | SessionStage::Ready => {
                self.failure is None
            },
            SessionStage::Release => self.claimed,
            SessionStage::Reattach => !self.claimed && self.driver_detached,
            SessionStage::Closed => !self.claimed && !self.driver_detached,
        }
    }

    /// An upper bound on the number of outcomes that the session still
    /// waits for. It is 0 when the session is closed.
    pub open spec fn remaining(self) -> nat {
        match self.stage {
            SessionStage::DriverQuery => 9,
            SessionStage::DriverDetach => 8,
            SessionStage::Activate => 7,
            SessionStage::Claim => 6,
            SessionStage::Select => 5,
            SessionStage::Idle => 4,
            SessionStage::Ready => 3,
            SessionStage::Release => 2,
            SessionStage::Reattach => 1,
            SessionStage::Closed => 0,
        }
    }

    /// The stage in which what is still held is given back: the interface
    /// first, then the kernel driver.
    pub open spec fn teardown(self) -> SessionState {
        SessionState {
            stage: if self.claimed {
                SessionStage::Release
            } else if self.driver_detached {
                SessionStage::Reattach
            } else {
                SessionStage::Closed
            },
            ..self
        }
    }

    /// Records a failure, unless one is recorded already.
    pub open spec fn fail(self, error: SetupError) -> SessionState {
        SessionState {
            failure: match self.failure {
                Some(first) => Some(first),
                None => Some(error),
            },
            ..self
        }
    }

    /// The operation to perform in this state.
    pub open spec fn command(self) -> SessionCommand {
        match self.stage {
            SessionStage::DriverQuery => SessionCommand::QueryKernelDriver {
                iface: DRIVER_INTERFACE,
            },
            SessionStage::DriverDetach => SessionCommand::DetachKernelDriver {
                iface: DRIVER_INTERFACE,
            },
            SessionStage::Activate => SessionCommand::SetActiveConfiguration {
                config: self.selection.configured.config,
            },
            SessionStage::Claim => SessionCommand::ClaimInterface {
                iface: self.selection.configured.iface,
            },
            SessionStage::Select => SessionCommand::SetAlternateSetting {
                iface: self.selection.configured.iface,
                setting: self.selection.configured.setting,
            },
            SessionStage::Idle => SessionCommand::SendControl { request: idle_request_spec() },
            SessionStage::Ready => SessionCommand::RunControlLoop {
                outbound: self.selection.outbound,
                inbound: self.selection.inbound,
            },
            SessionStage::Release => SessionCommand::ReleaseInterface {
                iface: self.selection.configured.iface,
            },
            SessionStage::Reattach => SessionCommand::AttachKernelDriver {
                iface: DRIVER_INTERFACE,
            },
            SessionStage::Closed => match self.failure {
                Some(error) => SessionCommand::Failed { error },
                None => SessionCommand::Finished,
            },
        }
    }

    /// The state after `outcome`.
    ///
    /// A kernel driver is detached only where the query says that one is
    /// active. A driver that cannot be detached, or an alternate setting
    /// that cannot be selected, ends the setup: the session gives back
    /// what it holds and closes with that failure. Activation, claim and
    /// idle request may fail and the session goes on. An outcome of a kind
    /// that the stage does not wait for changes nothing.
    pub open spec fn next(self, outcome: SessionOutcome) -> SessionState {
        match (self.stage, outcome) {
            (SessionStage::DriverQuery, SessionOutcome::DriverActive { active }) => {
                if active == Some(true) {
                    SessionState { stage: SessionStage::DriverDetach, ..self }
                } else {
                    SessionState { stage: SessionStage::Activate, ..self }
                }
            },
            (SessionStage::DriverDetach, SessionOutcome::Completed { ok }) => {
                if ok {
                    SessionState { driver_detached: true, stage: SessionStage::Activate, ..self }
                } else {
                    self.fail(SetupError::DriverDetachFailed).teardown()
                }
            },
            (SessionStage::Activate, SessionOutcome::Completed { ok }) => SessionState {
                stage: SessionStage::Claim,
                ..self
            },
            (SessionStage::Claim, SessionOutcome::Completed { ok }) => SessionState {
                claimed: ok,
                stage: SessionStage::Select,
                ..self
            },
            (SessionStage::Select, SessionOutcome::Completed { ok }) => {
                if ok {
                    SessionState { stage: SessionStage::Idle, ..self }
                } else {
                    self.fail(SetupError::InterfaceConfiguration).teardown()
                }
            },
            (SessionStage::Idle, SessionOutcome::Completed { ok }) => SessionState {
                stage: SessionStage::Ready,
                ..self
            },
            (SessionStage::Ready, SessionOutcome::LoopEnded) => self.teardown(),
            (SessionStage::Release, SessionOutcome::Completed { ok }) => {
                let released = SessionState { claimed: false, ..self };
                if ok {
                    released.teardown()
                } else {
                    released.fail(SetupError::ReleaseFailed).teardown()
                }
            },
            (SessionStage::Reattach, SessionOutcome::Completed { ok }) => {
                let attached = SessionState { driver_detached: false, ..self };
                if ok {
                    attached.teardown()
                } else {
                    attached.fail(SetupError::ReattachFailed).teardown()
                }
            },
            _ => self,
        }
    }

    /// What to tell the operator after `outcome`: whether a kernel driver
    /// was detached, once that is settled, and each failure that the
    /// session passes over.
    pub open spec fn notice(self, outcome: SessionOutcome) -> Notice {
        match (self.stage, outcome) {
            (SessionStage::DriverQuery, SessionOutcome::DriverActive { active }) => {
                if active == Some(true) {
                    Notice::Nothing
                } else {
                    Notice::KernelDriver { detached: false }
                }
            },
            (SessionStage::DriverDetach, SessionOutcome::Completed { ok: true }) => {
                Notice::KernelDriver { detached: true }
            },
            (SessionStage::Activate, SessionOutcome::Completed { ok: false }) => {
                Notice::ActivationFailed
            },
            (SessionStage::Claim, SessionOutcome::Completed { ok: false }) => Notice::ClaimFailed,
            _ => Notice::Nothing,
        }
    }
}

/// A device session.
#[derive(Clone, Copy, Debug)]
pub struct DeviceSession {
    state: SessionState,
}

impl View for DeviceSession {
    type V = SessionState;

    closed spec fn view(&self) -> SessionState {
        self.state
    }
}

/// The stage in which what `state` still holds is given back.
fn teardown(state: SessionState) -> (next: SessionState)
    ensures
        next == state.teardown(),
{
    let stage = if state.claimed {
        SessionStage::Release
    } else if state.driver_detached {
        SessionStage::Reattach
    } else {
        SessionStage::Closed
    };
    SessionState { stage, ..state }
}

/// Records a failure, unless one is recorded already.
fn fail(state: SessionState, error: SetupError) -> (next: SessionState)
    ensures
        next == state.fail(error),
{
    let failure = match state.failure {
        Some(first) => Some(first),
        None => Some(error),
    };
    SessionState { failure, ..state }
}

impl DeviceSession {
    #[verifier::type_invariant]
    spec fn inv(self) -> bool {
        self.state.wf()
    }

    /// A session on a handle that was just opened, for the given
    /// endpoints.
    pub fn new(selection: EndpointSelection) -> (session: DeviceSession)
        ensures
            session@ == SessionState::initial(selection),
            session@.wf(),
    {
        DeviceSession {
            state: SessionState {
                selection,
                stage: SessionStage::DriverQuery,
                driver_detached: false,
                claimed: false,
                failure: None,
            },
        }
    }

    /// The state of the session.
    pub fn state(&self) -> (state: SessionState)
        ensures
            state == self@,
            state.wf(),
    {
        proof {
            use_type_invariant(self);
        }
        self.state
    }

    /// Whether the session is closed. A closed session holds neither the
    /// interface nor the kernel driver.
    pub fn is_closed(&self) -> (closed: bool)
        ensures
            closed == (self@.stage == SessionStage::Closed),
            closed ==> !self@.claimed && !self@.driver_detached,
    {
        proof {
            use_type_invariant(self);
        }
        match self.state.stage {
            SessionStage::Closed => true,
            _ => false,
        }
    }

    /// The operation to perform next, or the end of the session.
    pub fn command(&self) -> (command: SessionCommand)
        ensures
            command == self@.command(),
    {
        let configured = self.state.selection.configured;
        match self.state.stage {
            SessionStage::DriverQuery => SessionCommand::QueryKernelDriver {
                iface: DRIVER_INTERFACE,
            },
            SessionStage::DriverDetach => SessionCommand::DetachKernelDriver {
                iface: DRIVER_INTERFACE,
            },
            SessionStage::Activate => SessionCommand::SetActiveConfiguration {
                config: configured.config,
            },
            SessionStage::Claim => SessionCommand::ClaimInterface { iface: configured.iface },
            SessionStage::Select => SessionCommand::SetAlternateSetting {
                iface: configured.iface,
                setting: configured.setting,
            },
            SessionStage::Idle => SessionCommand::SendControl { request: idle_request() },
            SessionStage::Ready => SessionCommand::RunControlLoop {
                outbound: self.state.selection.outbound,
                inbound: self.state.selection.inbound,
            },
            SessionStage::Release => SessionCommand::ReleaseInterface { iface: configured.iface },
            SessionStage::Reattach => SessionCommand::AttachKernelDriver {
                iface: DRIVER_INTERFACE,
            },
            SessionStage::Closed => match self.state.failure {
                Some(error) => SessionCommand::Failed { error },
                None => SessionCommand::Finished,
            },
        }
    }

    /// Takes the outcome of the operation last asked for, moves on, and
    /// says what to tell the operator.
    pub fn advance(&mut self, outcome: SessionOutcome) -> (notice: Notice)
        ensures
            final(self)@ == old(self)@.next(outcome),
            notice == old(self)@.notice(outcome),
            final(self)@.wf(),
    {
        proof {
            use_type_invariant(&*self);
            lemma_session_progresses(self.state, outcome);
        }
        let state = self.state;
        let mut notice = Notice::Nothing;
        let next = match (state.stage, outcome) {
            (SessionStage::DriverQuery, SessionOutcome::DriverActive { active }) => {
                let active = match active {
                    Some(active) => active,
                    None => false,
                };
                if active {
                    SessionState { stage: SessionStage::DriverDetach, ..state }
                } else {
                    notice = Notice::KernelDriver { detached: false };
                    SessionState { stage: SessionStage::Activate, ..state }
                }
            },
            (SessionStage::DriverDetach, SessionOutcome::Completed { ok }) => {
                if ok {
                    notice = Notice::KernelDriver { detached: true };
                    SessionState { driver_detached: true, stage: SessionStage::Activate, ..state }
                } else {
                    teardown(fail(state, SetupError::DriverDetachFailed))
                }
            },
            (SessionStage::Activate, SessionOutcome::Completed { ok }) => {
                if !ok {
                    notice = Notice::ActivationFailed;
                }
                SessionState { stage: SessionStage::Claim, ..state }
            },
            (SessionStage::Claim, SessionOutcome::Completed { ok }) => {
                if !ok {
                    notice = Notice::ClaimFailed;
                }
                SessionState { claimed: ok, stage: SessionStage::Select, ..state }
            },
            (SessionStage::Select, SessionOutcome::Completed { ok }) => {
                if ok {
                    SessionState { stage: SessionStage::Idle, ..state }
                } else {
                    teardown(fail(state, SetupError::InterfaceConfiguration))
                }
            },
            (SessionStage::Idle, SessionOutcome::Completed { ok: _ }) => SessionState {
                stage: SessionStage::Ready,
                ..state
            },
            (SessionStage::Ready, SessionOutcome::LoopEnded) => teardown(state),
            (SessionStage::Release, SessionOutcome::Completed { ok }) => {
                let released = SessionState { claimed: false, ..state };
                if ok {
                    teardown(released)
                } else {
                    teardown(fail(released, SetupError::ReleaseFailed))
                }
            },
            (SessionStage::Reattach, SessionOutcome::Completed { ok }) => {
                let attached = SessionState { driver_detached: false, ..state };
                if ok {
                    teardown(attached)
                } else {
                    teardown(fail(attached, SetupError::ReattachFailed))
                }
            },
            _ => state,
        };
        self.state = next;
        notice
    }
}

/// The failure with which a session closes: the one it had, else the
/// first of a failed release and a failed attach.
pub open spec fn closing_failure(
    state: SessionState,
    release_ok: bool,
    attach_ok: bool,
) -> Option<SetupError> {
    if state.failure is Some {
        state.failure
    } else if state.claimed && !release_ok {
        Some(SetupError::ReleaseFailed)
    } else if state.driver_detached && !attach_ok {
        Some(SetupError::ReattachFailed)
    } else {
        None
    }
}

/// The state in which the setup of a session ends, given how each of its
/// operations comes out.
pub open spec fn set_up(
    selection: EndpointSelection,
    active: Option<bool>,
    detach_ok: bool,
    activate_ok: bool,
    claim_ok: bool,
    select_ok: bool,
    idle_ok: bool,
) -> SessionState {
    let queried = SessionState::initial(selection).next(SessionOutcome::DriverActive { active });
    if active == Some(true) && !detach_ok {
        queried.next(SessionOutcome::Completed { ok: false })
    } else {
        let free = if active == Some(true) {
            queried.next(SessionOutcome::Completed { ok: true })
        } else {
            queried
        };
        let selected = free.next(SessionOutcome::Completed { ok: activate_ok }).next(
            SessionOutcome::Completed { ok: claim_ok },
        ).next(SessionOutcome::Completed { ok: select_ok });
        if select_ok {
            selected.next(SessionOutcome::Completed { ok: idle_ok })
        } else {
            selected
        }
    }
}

/// Every outcome that a session waits for brings it closer to its end,
/// and a session that is well formed stays so. A closed session stays as
/// it is.
pub proof fn lemma_session_progresses(state: SessionState, outcome: SessionOutcome)
    requires
        state.wf(),
    ensures
        state.next(outcome).wf(),
        state.next(outcome) == state || state.next(outcome).remaining() < state.remaining(),
        state.stage == SessionStage::Closed ==> state.next(outcome) == state,
{
}

/// The setup reaches the control loop exactly when the kernel driver, if
/// one was active, was detached and the alternate setting was selected.
/// The session then holds the driver if one was active, and the interface
/// if the claim succeeded. Otherwise the session is on its way out with
/// the failure that stopped it: nothing is held after a failed detach,
/// and after a failed selection what was taken is given back.
pub proof fn lemma_set_up_outcome(
    selection: EndpointSelection,
    active: Option<bool>,
    detach_ok: bool,
    activate_ok: bool,
    claim_ok: bool,
    select_ok: bool,
    idle_ok: bool,
)
    ensures
        ({
            let end = set_up(
                selection,
                active,
                detach_ok,
                activate_ok,
                claim_ok,
                select_ok,
                idle_ok,
            );
            let detached = active == Some(true);
            &&& end.wf()
            &&& end.selection == selection
            &&& end.stage == SessionStage::Ready <==> (detached ==> detach_ok) && select_ok
            &&& end.stage == SessionStage::Ready ==> end.driver_detached == detached && end.claimed
                == claim_ok && end.failure is None
            &&& detached && !detach_ok ==> end.stage == SessionStage::Closed && end.failure == Some(
                SetupError::DriverDetachFailed,
            )
            &&& (detached ==> detach_ok) && !select_ok ==> end == (SessionState {
                selection,
                stage: SessionStage::Select,
                driver_detached: detached,
                claimed: claim_ok,
                failure: Some(SetupError::InterfaceConfiguration),
            }).teardown()
        }),
{
}

/// A session that leaves its setup or its loop gives back what it holds,
/// in a fixed order: it releases the interface if it claimed it, then
/// attaches the kernel driver if it detached one, and only then closes. A
/// step that fails does not keep the next one from running.
pub proof fn lemma_teardown_gives_back(state: SessionState, release_ok: bool, attach_ok: bool)
    ensures
        ({
            let leaving = state.teardown();
            let released = if state.claimed {
                leaving.next(SessionOutcome::Completed { ok: release_ok })
            } else {
                leaving
            };
            let closed = if state.driver_detached {
                released.next(SessionOutcome::Completed { ok: attach_ok })
            } else {
                released
            };
            &&& state.claimed ==> leaving.command() == SessionCommand::ReleaseInterface {
                iface: state.selection.configured.iface,
            }
            &&& state.driver_detached ==> released.command() == SessionCommand::AttachKernelDriver {
                iface: DRIVER_INTERFACE,
            }
            &&& closed.stage == SessionStage::Closed
            &&& !closed.claimed && !closed.driver_detached
            &&& closed.failure == closing_failure(state, release_ok, attach_ok)
        }),
{
}

} // verus!
