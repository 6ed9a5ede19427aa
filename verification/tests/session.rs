use fanctl::endpoint::{Endpoint, EndpointSelection};
use fanctl::error::SetupError;
use fanctl::protocol::idle_request;
use fanctl::session::{
    DeviceSession, Notice, SessionCommand, SessionOutcome, SessionStage, SessionState,
    DRIVER_INTERFACE,
};

fn selection() -> EndpointSelection {
    EndpointSelection {
        configured: Endpoint { config: 1, iface: 4, setting: 2, address: 0x81 },
        inbound: 0x81,
        outbound: 0x02,
    }
}

fn completed(ok: bool) -> SessionOutcome {
    SessionOutcome::Completed { ok }
}

/// Feeds the outcomes and returns the command asked for before each and the notice after each.
fn drive(session: &mut DeviceSession, outcomes: &[SessionOutcome]) -> (Vec<SessionCommand>, Vec<Notice>) {
    let mut commands = Vec::new();
    let mut notices = Vec::new();
    for outcome in outcomes {
        commands.push(session.command());
        notices.push(session.advance(*outcome));
    }
    (commands, notices)
}

#[test]
fn new_session_asks_about_the_kernel_driver_of_interface_zero() {
    let session = DeviceSession::new(selection());
    assert_eq!(session.command(), SessionCommand::QueryKernelDriver { iface: 0 });
    assert_eq!(DRIVER_INTERFACE, 0);
    assert_eq!(
        session.state(),
        SessionState {
            selection: selection(),
            stage: SessionStage::DriverQuery,
            driver_detached: false,
            claimed: false,
            failure: None,
        }
    );
    assert!(!session.is_closed());
}

#[test]
fn setup_with_active_driver_runs_every_step_in_order() {
    let mut session = DeviceSession::new(selection());
    let (commands, notices) = drive(
        &mut session,
        &[
            SessionOutcome::DriverActive { active: Some(true) },
            completed(true),
            completed(true),
            completed(true),
            completed(true),
            completed(true),
        ],
    );
    assert_eq!(
        commands,
        vec![
            SessionCommand::QueryKernelDriver { iface: 0 },
            SessionCommand::DetachKernelDriver { iface: 0 },
            SessionCommand::SetActiveConfiguration { config: 1 },
            SessionCommand::ClaimInterface { iface: 4 },
            SessionCommand::SetAlternateSetting { iface: 4, setting: 2 },
            SessionCommand::SendControl { request: idle_request() },
        ]
    );
    assert_eq!(
        notices,
        vec![
            Notice::Nothing,
            Notice::KernelDriver { detached: true },
            Notice::Nothing,
            Notice::Nothing,
            Notice::Nothing,
            Notice::Nothing,
        ]
    );
    assert_eq!(session.command(), SessionCommand::RunControlLoop { outbound: 0x02, inbound: 0x81 });
    assert!(session.state().driver_detached);
    assert!(session.state().claimed);
}

#[test]
fn setup_without_driver_skips_the_detach() {
    for active in [Some(false), None] {
        let mut session = DeviceSession::new(selection());
        let notice = session.advance(SessionOutcome::DriverActive { active });
        assert_eq!(notice, Notice::KernelDriver { detached: false });
        assert_eq!(session.command(), SessionCommand::SetActiveConfiguration { config: 1 });
        assert!(!session.state().driver_detached);
    }
}

#[test]
fn failed_detach_ends_the_session_with_nothing_to_give_back() {
    let mut session = DeviceSession::new(selection());
    drive(&mut session, &[SessionOutcome::DriverActive { active: Some(true) }, completed(false)]);
    assert!(session.is_closed());
    assert_eq!(session.command(), SessionCommand::Failed { error: SetupError::DriverDetachFailed });
}

#[test]
fn failed_activation_and_claim_are_noticed_and_passed_over() {
    let mut session = DeviceSession::new(selection());
    let (_, notices) = drive(
        &mut session,
        &[
            SessionOutcome::DriverActive { active: Some(false) },
            completed(false),
            completed(false),
            completed(true),
            completed(true),
        ],
    );
    assert_eq!(notices[1], Notice::ActivationFailed);
    assert_eq!(notices[2], Notice::ClaimFailed);
    assert_eq!(session.state().stage, SessionStage::Ready);
    assert_eq!(session.state().failure, None);
    assert!(!session.state().claimed);
}

#[test]
fn failed_idle_request_is_ignored() {
    let mut session = DeviceSession::new(selection());
    let (_, notices) = drive(
        &mut session,
        &[
            SessionOutcome::DriverActive { active: None },
            completed(true),
            completed(true),
            completed(true),
            completed(false),
        ],
    );
    assert_eq!(notices[4], Notice::Nothing);
    assert_eq!(session.command(), SessionCommand::RunControlLoop { outbound: 0x02, inbound: 0x81 });
}

#[test]
fn failed_alternate_setting_is_fatal_and_gives_back_what_was_taken() {
    let mut session = DeviceSession::new(selection());
    drive(
        &mut session,
        &[
            SessionOutcome::DriverActive { active: Some(true) },
            completed(true),
            completed(true),
            completed(true),
            completed(false),
        ],
    );
    assert_eq!(session.command(), SessionCommand::ReleaseInterface { iface: 4 });
    session.advance(completed(true));
    assert_eq!(session.command(), SessionCommand::AttachKernelDriver { iface: 0 });
    session.advance(completed(true));
    assert!(session.is_closed());
    assert_eq!(
        session.command(),
        SessionCommand::Failed { error: SetupError::InterfaceConfiguration }
    );
}

#[test]
fn failed_alternate_setting_without_claim_or_driver_closes_at_once() {
    let mut session = DeviceSession::new(selection());
    drive(
        &mut session,
        &[
            SessionOutcome::DriverActive { active: Some(false) },
            completed(true),
            completed(false),
            completed(false),
        ],
    );
    assert!(session.is_closed());
    assert_eq!(
        session.command(),
        SessionCommand::Failed { error: SetupError::InterfaceConfiguration }
    );
}

#[test]
fn end_of_loop_releases_then_reattaches_then_finishes() {
    let mut session = DeviceSession::new(selection());
    drive(
        &mut session,
        &[
            SessionOutcome::DriverActive { active: Some(true) },
            completed(true),
            completed(true),
            completed(true),
            completed(true),
            completed(true),
        ],
    );
    let (commands, _) =
        drive(&mut session, &[SessionOutcome::LoopEnded, completed(true), completed(true)]);
    assert_eq!(
        commands,
        vec![
            SessionCommand::RunControlLoop { outbound: 0x02, inbound: 0x81 },
            SessionCommand::ReleaseInterface { iface: 4 },
            SessionCommand::AttachKernelDriver { iface: 0 },
        ]
    );
    assert!(session.is_closed());
    assert_eq!(session.command(), SessionCommand::Finished);
    assert!(!session.state().claimed);
    assert!(!session.state().driver_detached);
}

#[test]
fn end_of_loop_without_driver_only_releases() {
    let mut session = DeviceSession::new(selection());
    drive(
        &mut session,
        &[
            SessionOutcome::DriverActive { active: Some(false) },
            completed(true),
            completed(true),
            completed(true),
            completed(true),
            SessionOutcome::LoopEnded,
        ],
    );
    assert_eq!(session.command(), SessionCommand::ReleaseInterface { iface: 4 });
    session.advance(completed(true));
    assert_eq!(session.command(), SessionCommand::Finished);
}

#[test]
fn failed_release_still_reattaches_and_is_the_error() {
    let mut session = DeviceSession::new(selection());
    drive(
        &mut session,
        &[
            SessionOutcome::DriverActive { active: Some(true) },
            completed(true),
            completed(true),
            completed(true),
            completed(true),
            completed(true),
            SessionOutcome::LoopEnded,
            completed(false),
        ],
    );
    assert_eq!(session.command(), SessionCommand::AttachKernelDriver { iface: 0 });
    session.advance(completed(false));
    assert_eq!(session.command(), SessionCommand::Failed { error: SetupError::ReleaseFailed });
}

#[test]
fn failed_reattach_is_the_error() {
    let mut session = DeviceSession::new(selection());
    drive(
        &mut session,
        &[
            SessionOutcome::DriverActive { active: Some(true) },
            completed(true),
            completed(true),
            completed(false),
            completed(true),
            completed(true),
            SessionOutcome::LoopEnded,
        ],
    );
    assert_eq!(session.command(), SessionCommand::AttachKernelDriver { iface: 0 });
    session.advance(completed(false));
    assert_eq!(session.command(), SessionCommand::Failed { error: SetupError::ReattachFailed });
}

#[test]
fn setup_failure_outlives_teardown_failures() {
    let mut session = DeviceSession::new(selection());
    drive(
        &mut session,
        &[
            SessionOutcome::DriverActive { active: Some(true) },
            completed(true),
            completed(true),
            completed(true),
            completed(false),
            completed(false),
            completed(false),
        ],
    );
    assert_eq!(
        session.command(),
        SessionCommand::Failed { error: SetupError::InterfaceConfiguration }
    );
}

#[test]
fn closed_session_ignores_further_outcomes() {
    let mut session = DeviceSession::new(selection());
    drive(&mut session, &[SessionOutcome::DriverActive { active: Some(true) }, completed(false)]);
    let closed = session.state();
    drive(
        &mut session,
        &[completed(true), SessionOutcome::LoopEnded, SessionOutcome::DriverActive { active: None }],
    );
    assert_eq!(session.state(), closed);
}

#[test]
fn session_outcome_of_wrong_kind_changes_nothing() {
    let mut session = DeviceSession::new(selection());
    let start = session.state();
    assert_eq!(session.advance(completed(true)), Notice::Nothing);
    assert_eq!(session.advance(SessionOutcome::LoopEnded), Notice::Nothing);
    assert_eq!(session.state(), start);
    session.advance(SessionOutcome::DriverActive { active: Some(false) });
    let activating = session.state();
    assert_eq!(session.advance(SessionOutcome::DriverActive { active: Some(true) }), Notice::Nothing);
    assert_eq!(session.advance(SessionOutcome::LoopEnded), Notice::Nothing);
    assert_eq!(session.state(), activating);
}

#[test]
fn every_run_of_outcomes_closes_holding_nothing() {
    // Every combination of query answer and six successes or failures, then the end of the loop
    // and two more outcomes: the session always ends closed.
    for active in [None, Some(false), Some(true)] {
        for code in 0..256u32 {
            let mut session = DeviceSession::new(selection());
            session.advance(SessionOutcome::DriverActive { active });
            let mut steps = 0;
            while !session.is_closed() {
                let outcome = match session.command() {
                    SessionCommand::RunControlLoop { .. } => SessionOutcome::LoopEnded,
                    _ => completed((code >> steps) & 1 == 1),
                };
                session.advance(outcome);
                steps += 1;
                assert!(steps <= 9);
            }
            assert!(!session.state().claimed);
            assert!(!session.state().driver_detached);
        }
    }
}
