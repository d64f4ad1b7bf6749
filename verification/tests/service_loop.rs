use probationdesk::control::ControlMessage;
use probationdesk::launcher::{LaunchError, ProcessHandle};
use probationdesk::service::{
    Event, Lifecycle, Origin, Phase, ReportedState, Request, ServiceError, ServiceLoop,
    NO_SESSION, STILL_ACTIVE,
};

fn handle(raw: u64, session_id: u32) -> ProcessHandle {
    ProcessHandle { raw, token_pid: 812, session_id, as_user: false, show: false }
}

fn started(session_id: u32, process: Option<ProcessHandle>) -> ServiceLoop {
    let mut service = ServiceLoop::new();
    assert_eq!(service.pending(), Request::RegisterHandler);
    assert_eq!(
        service.step(Event::HandlerRegistered(true)),
        Request::ReportStatus(ReportedState::Running)
    );
    assert_eq!(service.step(Event::StatusReported(true)), Request::QueryActiveSession);
    assert_eq!(
        service.step(Event::ActiveSession(session_id)),
        Request::LaunchServer { session_id, close_first: true }
    );
    let launched = match process {
        Some(h) => Ok(h),
        None => Err(LaunchError::NoDonorProcess),
    };
    assert_eq!(service.step(Event::Launched(launched)), Request::BindListener);
    assert_eq!(service.step(Event::ListenerBound(true)), Request::QuerySessions);
    service
}

#[test]
fn a_new_service_is_starting_and_tracks_nothing() {
    let service = ServiceLoop::new();
    assert_eq!(service.lifecycle(), Lifecycle::Starting);
    assert_eq!(service.session_id, NO_SESSION);
    assert_eq!(service.process, None);
    assert_eq!(service.stored_user_sid, None);
    assert!(!service.is_finished());
}

#[test]
fn startup_launches_the_server_before_it_binds_the_listener() {
    let service = started(5, Some(handle(0x40, 5)));
    assert_eq!(service.lifecycle(), Lifecycle::Running);
    assert_eq!(service.session_id, 5);
    assert_eq!(service.process, Some(handle(0x40, 5)));
}

#[test]
fn a_handler_that_cannot_be_registered_is_fatal() {
    let mut service = ServiceLoop::new();
    assert_eq!(
        service.step(Event::HandlerRegistered(false)),
        Request::Exit(Err(ServiceError::HandlerRegistration))
    );
    assert_eq!(service.lifecycle(), Lifecycle::Stopped);
    assert!(service.is_finished());
}

#[test]
fn a_refused_running_report_is_fatal() {
    let mut service = ServiceLoop::new();
    service.step(Event::HandlerRegistered(true));
    assert_eq!(
        service.step(Event::StatusReported(false)),
        Request::Exit(Err(ServiceError::StatusReport))
    );
}

#[test]
fn a_listener_that_cannot_be_bound_is_fatal_and_releases_the_server() {
    let mut service = ServiceLoop::new();
    service.step(Event::HandlerRegistered(true));
    service.step(Event::StatusReported(true));
    service.step(Event::ActiveSession(2));
    service.step(Event::Launched(Ok(handle(0x90, 2))));
    assert_eq!(service.step(Event::ListenerBound(false)), Request::CloseHandle(handle(0x90, 2)));
    assert_eq!(
        service.step(Event::HandleClosed(true)),
        Request::Exit(Err(ServiceError::ListenerBind))
    );
    assert_eq!(service.process, None);
}

#[test]
fn a_listener_that_cannot_be_bound_without_a_server_exits_at_once() {
    let mut service = ServiceLoop::new();
    service.step(Event::HandlerRegistered(true));
    service.step(Event::StatusReported(true));
    service.step(Event::ActiveSession(2));
    service.step(Event::Launched(Err(LaunchError::NoDonorProcess)));
    assert_eq!(
        service.step(Event::ListenerBound(false)),
        Request::Exit(Err(ServiceError::ListenerBind))
    );
}

#[test]
fn a_null_handle_is_a_failed_launch() {
    let service = started(5, Some(handle(0, 5)));
    assert_eq!(service.process, None);
}

#[test]
fn an_event_that_answers_nothing_changes_nothing() {
    let mut service = started(5, Some(handle(0x40, 5)));
    let before = service;
    assert_eq!(service.step(Event::SasSent), Request::QuerySessions);
    assert_eq!(service, before);
    assert_eq!(service.step(Event::Message(ControlMessage::Close)), Request::QuerySessions);
    assert_eq!(service, before);
}

#[test]
fn a_present_session_goes_straight_to_the_accept() {
    let mut service = started(5, Some(handle(0x40, 5)));
    assert_eq!(
        service.step(Event::Sessions { ids: vec![1, 5, 9], share_rdp: true }),
        Request::Accept
    );
}

#[test]
fn a_missing_session_is_resolved_again() {
    let mut service = started(5, Some(handle(0x40, 5)));
    assert_eq!(
        service.step(Event::Sessions { ids: vec![1, 9], share_rdp: true }),
        Request::QueryActiveSession
    );
    assert_eq!(service.step(Event::ActiveSession(5)), Request::Accept);
    assert_eq!(service.session_id, 5);
}

#[test]
fn disabled_sharing_resolves_the_session_again() {
    let mut service = started(5, Some(handle(0x40, 5)));
    assert_eq!(
        service.step(Event::Sessions { ids: vec![5], share_rdp: false }),
        Request::QueryActiveSession
    );
}

#[test]
fn a_switch_at_the_poll_relaunches_without_port_forwards() {
    let mut service = started(5, Some(handle(0x40, 5)));
    service.step(Event::Sessions { ids: vec![9], share_rdp: true });
    assert_eq!(service.step(Event::ActiveSession(9)), Request::QueryPortForwards);
    assert_eq!(service.session_id, 9);
    assert_eq!(service.step(Event::PortForwards(Some(0))), Request::CloseHandle(handle(0x40, 5)));
    assert_eq!(
        service.step(Event::HandleClosed(true)),
        Request::LaunchServer { session_id: 9, close_first: true }
    );
    assert_eq!(service.process, None);
    assert_eq!(service.step(Event::Launched(Ok(handle(0x44, 9)))), Request::Accept);
    assert_eq!(service.process, Some(handle(0x44, 9)));
}

#[test]
fn a_failed_count_query_counts_as_zero() {
    let mut service = started(5, None);
    service.step(Event::Sessions { ids: vec![9], share_rdp: true });
    service.step(Event::ActiveSession(9));
    assert_eq!(
        service.step(Event::PortForwards(None)),
        Request::LaunchServer { session_id: 9, close_first: true }
    );
}

#[test]
fn a_switch_at_the_poll_with_port_forwards_records_the_session_only() {
    let mut service = started(5, Some(handle(0x40, 5)));
    service.step(Event::Sessions { ids: vec![9], share_rdp: true });
    service.step(Event::ActiveSession(9));
    assert_eq!(service.step(Event::PortForwards(Some(2))), Request::Accept);
    assert_eq!(service.session_id, 9);
    assert_eq!(service.process, Some(handle(0x40, 5)));
}

#[test]
fn the_fallback_launches_once_the_server_is_found_dead() {
    let mut service = started(5, Some(handle(0x40, 5)));
    service.step(Event::Sessions { ids: vec![9], share_rdp: true });
    service.step(Event::ActiveSession(9));
    service.step(Event::PortForwards(Some(2)));
    assert_eq!(service.step(Event::AcceptTimedOut), Request::QueryActiveSession);
    assert_eq!(service.step(Event::ActiveSession(9)), Request::QueryProcess(handle(0x40, 5)));
    assert_eq!(
        service.step(Event::ProcessStatus { queried: true, exit_code: STILL_ACTIVE }),
        Request::QuerySessions
    );
    service.step(Event::Sessions { ids: vec![9], share_rdp: true });
    service.step(Event::AcceptTimedOut);
    service.step(Event::ActiveSession(9));
    assert_eq!(
        service.step(Event::ProcessStatus { queried: true, exit_code: 1 }),
        Request::CloseHandle(handle(0x40, 5))
    );
    assert_eq!(
        service.step(Event::HandleClosed(true)),
        Request::LaunchServer { session_id: 9, close_first: true }
    );
    assert_eq!(
        service.step(Event::Launched(Ok(handle(0x48, 9)))),
        Request::QuerySessions
    );
    assert_eq!(service.process, Some(handle(0x48, 9)));
}

#[test]
fn a_switch_at_the_timeout_sends_one_close_and_launches_without_a_second() {
    let mut service = started(5, None);
    service.step(Event::Sessions { ids: vec![5], share_rdp: true });
    service.step(Event::AcceptTimedOut);
    assert_eq!(service.step(Event::ActiveSession(6)), Request::QueryPortForwards);
    assert_eq!(service.session_id, 6);
    assert_eq!(service.step(Event::PortForwards(Some(0))), Request::SendClose);
    assert_eq!(
        service.step(Event::CloseSent(false)),
        Request::LaunchServer { session_id: 6, close_first: false }
    );
    assert_eq!(service.phase, Phase::Launching { origin: Origin::Timeout, close_first: false });
}

#[test]
fn a_switch_at_the_timeout_with_port_forwards_sends_no_close() {
    let mut service = started(5, Some(handle(0x40, 5)));
    service.step(Event::Sessions { ids: vec![5], share_rdp: true });
    service.step(Event::AcceptTimedOut);
    service.step(Event::ActiveSession(6));
    assert_eq!(service.step(Event::PortForwards(Some(1))), Request::QueryProcess(handle(0x40, 5)));
    assert_eq!(service.session_id, 6);
}

#[test]
fn no_active_session_at_the_timeout_skips_the_round() {
    let mut service = started(5, None);
    service.step(Event::Sessions { ids: vec![5], share_rdp: true });
    service.step(Event::AcceptTimedOut);
    assert_eq!(service.step(Event::ActiveSession(NO_SESSION)), Request::QuerySessions);
    assert_eq!(service.session_id, 5);
    assert_eq!(service.process, None);
}

#[test]
fn a_bound_session_is_not_given_up_at_the_timeout() {
    let mut service = started(5, Some(handle(0x40, 5)));
    service.step(Event::Sessions { ids: vec![5], share_rdp: true });
    service.step(Event::Message(ControlMessage::UserSid(Some(7))));
    service.step(Event::HandleClosed(true));
    service.step(Event::Launched(Ok(handle(0x50, 7))));
    service.step(Event::Sessions { ids: vec![5, 7], share_rdp: true });
    service.step(Event::AcceptTimedOut);
    assert_eq!(service.step(Event::ActiveSession(5)), Request::QueryProcess(handle(0x50, 7)));
    assert_eq!(service.session_id, 7);
}

#[test]
fn a_missing_server_is_launched_at_the_timeout() {
    let mut service = started(5, None);
    service.step(Event::Sessions { ids: vec![5], share_rdp: true });
    service.step(Event::AcceptTimedOut);
    assert_eq!(
        service.step(Event::ActiveSession(5)),
        Request::LaunchServer { session_id: 5, close_first: true }
    );
    assert_eq!(service.step(Event::Launched(Err(LaunchError::NoDonorProcess))), Request::QuerySessions);
    assert_eq!(service.process, None);
    service.step(Event::Sessions { ids: vec![5], share_rdp: true });
    service.step(Event::AcceptTimedOut);
    assert_eq!(
        service.step(Event::ActiveSession(5)),
        Request::LaunchServer { session_id: 5, close_first: true }
    );
}

#[test]
fn an_exit_code_that_cannot_be_read_launches_nothing() {
    let mut service = started(5, Some(handle(0x40, 5)));
    service.step(Event::Sessions { ids: vec![5], share_rdp: true });
    service.step(Event::AcceptTimedOut);
    service.step(Event::ActiveSession(5));
    assert_eq!(
        service.step(Event::ProcessStatus { queried: false, exit_code: 0 }),
        Request::QuerySessions
    );
    assert_eq!(service.process, Some(handle(0x40, 5)));
}

#[test]
fn a_handle_that_cannot_be_closed_is_kept() {
    let mut service = started(5, Some(handle(0x40, 5)));
    service.step(Event::Sessions { ids: vec![5], share_rdp: true });
    service.step(Event::AcceptTimedOut);
    service.step(Event::ActiveSession(5));
    service.step(Event::ProcessStatus { queried: true, exit_code: 0 });
    assert_eq!(service.step(Event::HandleClosed(false)), Request::QuerySessions);
    assert_eq!(service.process, Some(handle(0x40, 5)));
}

#[test]
fn repeated_timeouts_with_a_live_server_change_nothing() {
    let mut service = started(5, Some(handle(0x40, 5)));
    let before = service;
    for round in 0..25 {
        let share_rdp = round % 2 == 0;
        let asked = service.step(Event::Sessions { ids: vec![3, 5], share_rdp });
        if asked == Request::QueryActiveSession {
            assert_eq!(service.step(Event::ActiveSession(5)), Request::Accept);
        } else {
            assert_eq!(asked, Request::Accept);
        }
        assert_eq!(service.step(Event::AcceptTimedOut), Request::QueryActiveSession);
        assert_eq!(
            service.step(Event::ActiveSession(5)),
            Request::QueryProcess(handle(0x40, 5))
        );
        assert_eq!(
            service.step(Event::ProcessStatus { queried: true, exit_code: STILL_ACTIVE }),
            Request::QuerySessions
        );
        assert_eq!(service, before);
    }
}

#[test]
fn one_close_message_ends_the_loop() {
    let mut service = started(5, Some(handle(0x40, 5)));
    service.step(Event::Sessions { ids: vec![5], share_rdp: true });
    assert_eq!(service.step(Event::Message(ControlMessage::Close)), Request::SendClose);
    assert_eq!(service.lifecycle(), Lifecycle::StoppingRequested);
    assert_eq!(service.step(Event::CloseSent(true)), Request::CloseHandle(handle(0x40, 5)));
    assert_eq!(
        service.step(Event::HandleClosed(true)),
        Request::ReportStatus(ReportedState::Stopped)
    );
    assert_eq!(service.step(Event::StatusReported(true)), Request::Exit(Ok(())));
    assert_eq!(service.lifecycle(), Lifecycle::Stopped);
    let stopped = service;
    for _ in 0..3 {
        assert_eq!(service.step(Event::Message(ControlMessage::Close)), Request::Exit(Ok(())));
        assert_eq!(service, stopped);
    }
}

#[test]
fn a_close_without_a_server_closes_no_handle() {
    let mut service = started(5, None);
    service.step(Event::Sessions { ids: vec![5], share_rdp: true });
    assert_eq!(
        service.step(Event::Message(ControlMessage::Close)),
        Request::ReportStatus(ReportedState::Stopped)
    );
    assert_eq!(
        service.step(Event::StatusReported(false)),
        Request::Exit(Err(ServiceError::StatusReport))
    );
}

#[test]
fn a_sas_message_injects_the_sequence_and_goes_on() {
    let mut service = started(5, Some(handle(0x40, 5)));
    service.step(Event::Sessions { ids: vec![5], share_rdp: true });
    assert_eq!(service.step(Event::Message(ControlMessage::SAS)), Request::SendSas);
    assert_eq!(service.step(Event::SasSent), Request::QuerySessions);
    assert_eq!(service.lifecycle(), Lifecycle::Running);
}

#[test]
fn other_messages_and_silence_are_ignored() {
    let mut service = started(5, Some(handle(0x40, 5)));
    let before = service;
    service.step(Event::Sessions { ids: vec![5], share_rdp: true });
    assert_eq!(service.step(Event::Message(ControlMessage::Other)), Request::QuerySessions);
    assert_eq!(service, before);
    service.step(Event::Sessions { ids: vec![5], share_rdp: true });
    assert_eq!(service.step(Event::Silent), Request::QuerySessions);
    assert_eq!(service, before);
    service.step(Event::Sessions { ids: vec![5], share_rdp: true });
    assert_eq!(
        service.step(Event::Message(ControlMessage::UserSid(None))),
        Request::QuerySessions
    );
    assert_eq!(service, before);
    service.step(Event::Sessions { ids: vec![5], share_rdp: true });
    assert_eq!(
        service.step(Event::Message(ControlMessage::UserSid(Some(5)))),
        Request::QuerySessions
    );
    assert_eq!(service, before);
}

#[test]
fn three_rounds_with_one_binding_launch_once() {
    let mut service = started(5, Some(handle(0x40, 5)));
    let mut launches = 0;
    let mut count = |request: Request| {
        if let Request::LaunchServer { .. } = request {
            launches += 1;
        }
        request
    };

    // Round one: the accept times out and the server is alive.
    count(service.step(Event::Sessions { ids: vec![5], share_rdp: true }));
    count(service.step(Event::AcceptTimedOut));
    count(service.step(Event::ActiveSession(5)));
    count(service.step(Event::ProcessStatus { queried: true, exit_code: STILL_ACTIVE }));
    assert_eq!(service.session_id, 5);

    // Round two: a binding to session 7 arrives.
    count(service.step(Event::Sessions { ids: vec![5, 7], share_rdp: true }));
    count(service.step(Event::Message(ControlMessage::UserSid(Some(7)))));
    assert_eq!(service.session_id, 7);
    assert_eq!(service.stored_user_sid, Some(7));
    let asked = count(service.step(Event::HandleClosed(true)));
    assert_eq!(asked, Request::LaunchServer { session_id: 7, close_first: true });
    count(service.step(Event::Launched(Ok(handle(0x50, 7)))));

    // Round three: the accept times out, session 7 is active, the server is alive.
    count(service.step(Event::Sessions { ids: vec![5, 7], share_rdp: true }));
    count(service.step(Event::AcceptTimedOut));
    count(service.step(Event::ActiveSession(7)));
    count(service.step(Event::ProcessStatus { queried: true, exit_code: STILL_ACTIVE }));

    assert_eq!(service.session_id, 7);
    assert_eq!(service.process, Some(handle(0x50, 7)));
    assert_eq!(launches, 1);
}
