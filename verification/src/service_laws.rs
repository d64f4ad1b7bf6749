//! What holds of every run of the service control loop.

use crate::control::ControlMessage;
use crate::launcher::ProcessHandle;
use crate::service::{
    lifecycle_of, next, pending_of, rank, EventView, Origin, Phase, ReportedState, Request,
    ServiceError, ServiceLoop, NO_SESSION, STILL_ACTIVE,
};
use vstd::prelude::*;

verus! {

/// The state reached from `s` when `events` are reported in order.
pub open spec fn run(s: ServiceLoop, events: Seq<EventView>) -> ServiceLoop
    decreases events.len(),
{
    if events.len() == 0 {
        s
    } else {
        next(run(s, events.drop_last()), events.last())
    }
}

/// The requests the machine answers with, one for each of `events`.
pub open spec fn requests(s: ServiceLoop, events: Seq<EventView>) -> Seq<Request> {
    Seq::new(events.len(), |i: int| pending_of(run(s, events.take(i + 1))))
}

/// A request that starts, closes or tells nothing: it neither launches a
/// server, nor closes a handle, nor sends a close.
pub open spec fn is_passive(request: Request) -> bool {
    &&& !(request is LaunchServer)
    &&& !(request is CloseHandle)
    &&& !(request is SendClose)
}

/// The state after the first `k` events follows from the state after the first `k - 1`.
pub proof fn run_take(s: ServiceLoop, events: Seq<EventView>, k: int)
    requires
        0 < k <= events.len(),
    ensures
        run(s, events.take(k)) == next(run(s, events.take(k - 1)), events[k - 1]),
        run(s, events.take(0)) == s,
{
    assert(events.take(k).drop_last() =~= events.take(k - 1));
    assert(events.take(0).len() == 0);
}

/// Running two sequences one after the other is running their concatenation.
pub proof fn run_append(s: ServiceLoop, a: Seq<EventView>, b: Seq<EventView>)
    ensures
        run(s, a + b) == run(run(s, a), b),
    decreases b.len(),
{
    if b.len() == 0 {
        assert(a + b =~= a);
    } else {
        run_append(s, a, b.drop_last());
        assert((a + b).drop_last() =~= a + b.drop_last());
    }
}

/// The life of a service only moves forward: from starting to running, to
/// stopping, to stopped.
pub proof fn lifecycle_never_regresses(s: ServiceLoop, e: EventView)
    ensures
        rank(lifecycle_of(next(s, e).phase)) >= rank(lifecycle_of(s.phase)),
{
}

/// Along a whole run the life of a service only moves forward.
pub proof fn lifecycle_never_regresses_along(s: ServiceLoop, events: Seq<EventView>)
    ensures
        rank(lifecycle_of(run(s, events).phase)) >= rank(lifecycle_of(s.phase)),
    decreases events.len(),
{
    if events.len() > 0 {
        lifecycle_never_regresses_along(s, events.drop_last());
        lifecycle_never_regresses(run(s, events.drop_last()), events.last());
    }
}

/// A sound handle record stays sound along a whole run.
pub proof fn run_keeps_wf(s: ServiceLoop, events: Seq<EventView>)
    requires
        s.wf(),
    ensures
        run(s, events).wf(),
    decreases events.len(),
{
    if events.len() > 0 {
        run_keeps_wf(s, events.drop_last());
        crate::service::step_keeps_wf(run(s, events.drop_last()), events.last());
    }
}

/// A finished service stays in the state it finished in.
pub proof fn finished_stays(s: ServiceLoop, events: Seq<EventView>)
    requires
        s.phase is Finished,
    ensures
        run(s, events) == s,
    decreases events.len(),
{
    if events.len() > 0 {
        finished_stays(s, events.drop_last());
    }
}

/// Once the service has finished, nothing that is reported is processed: the
/// state stays as it is and every answer is the same exit.
pub proof fn finished_is_final(s: ServiceLoop, events: Seq<EventView>)
    requires
        s.phase is Finished,
    ensures
        run(s, events) == s,
        forall|i: int| 0 <= i < events.len() ==> requests(s, events)[i] == pending_of(s),
        pending_of(s) is Exit,
{
    finished_stays(s, events);
    assert forall|i: int| 0 <= i < events.len() implies requests(s, events)[i] == pending_of(
        s,
    ) by {
        finished_stays(s, events.take(i + 1));
    }
}

/// The events of an orderly shutdown of a service that tracks a server: the
/// close message, then the answers to the close sent to the server, to the
/// closing of its handle, and to the report of the stopped state.
pub open spec fn shutdown_events(sent: bool, closed: bool, reported: bool) -> Seq<EventView> {
    seq![
        EventView::Message(ControlMessage::Close),
        EventView::CloseSent(sent),
        EventView::HandleClosed(closed),
        EventView::StatusReported(reported),
    ]
}

/// The result a service leaves with once the stopped state was reported.
pub open spec fn exit_result(reported: bool) -> Result<(), ServiceError> {
    if reported {
        Ok(())
    } else {
        Err(ServiceError::StatusReport)
    }
}

/// One close message ends the loop. A service that tracks a server sends that
/// server one close, closes its handle once, reports the stopped state and
/// leaves; whatever is reported afterwards, further close messages among it,
/// is answered with the same exit and changes nothing.
pub proof fn close_ends_the_loop(
    s: ServiceLoop,
    handle: ProcessHandle,
    sent: bool,
    closed: bool,
    reported: bool,
    later: Seq<EventView>,
)
    requires
        s.phase is Accepting,
        s.process == Some(handle),
    ensures
        requests(s, shutdown_events(sent, closed, reported)) == seq![
            Request::SendClose,
            Request::CloseHandle(handle),
            Request::ReportStatus(ReportedState::Stopped),
            Request::Exit(exit_result(reported)),
        ],
        run(s, shutdown_events(sent, closed, reported)) == (ServiceLoop {
            phase: Phase::Finished(exit_result(reported)),
            process: None,
            ..s
        }),
        run(s, shutdown_events(sent, closed, reported) + later) == run(
            s,
            shutdown_events(sent, closed, reported),
        ),
        forall|i: int|
            0 <= i < later.len() ==> requests(
                run(s, shutdown_events(sent, closed, reported)),
                later,
            )[i] == Request::Exit(exit_result(reported)),
{
    let events = shutdown_events(sent, closed, reported);
    run_take(s, events, 1);
    run_take(s, events, 2);
    run_take(s, events, 3);
    run_take(s, events, 4);
    assert(events.take(4) =~= events);
    assert(requests(s, events) =~= seq![
        Request::SendClose,
        Request::CloseHandle(handle),
        Request::ReportStatus(ReportedState::Stopped),
        Request::Exit(exit_result(reported)),
    ]);
    run_append(s, events, later);
    finished_is_final(run(s, events), later);
}

/// A service that tracks no server closes nothing on shutdown: it reports the
/// stopped state and leaves.
pub proof fn close_without_server(s: ServiceLoop, reported: bool)
    requires
        s.phase is Accepting,
        s.process is None,
    ensures
        requests(
            s,
            seq![EventView::Message(ControlMessage::Close), EventView::StatusReported(reported)],
        ) == seq![
            Request::ReportStatus(ReportedState::Stopped),
            Request::Exit(exit_result(reported)),
        ],
{
    let events = seq![
        EventView::Message(ControlMessage::Close),
        EventView::StatusReported(reported),
    ];
    run_take(s, events, 1);
    run_take(s, events, 2);
    assert(events.take(2) =~= events);
    assert(requests(s, events) =~= seq![
        Request::ReportStatus(ReportedState::Stopped),
        Request::Exit(exit_result(reported)),
    ]);
}

/// What is observed in one round of the loop in which nothing happens.
pub ghost struct QuietRound {
    /// The session ids the enumeration gave.
    pub ids: Seq<u32>,
    /// Whether remote sessions are shared.
    pub share_rdp: bool,
    /// Whether the exit code of the server could be read.
    pub queried: bool,
    /// The exit code that was read.
    pub exit_code: u32,
}

impl QuietRound {
    /// The server was not seen to have exited.
    pub open spec fn alive(self) -> bool {
        !self.queried || self.exit_code == STILL_ACTIVE
    }
}

/// The events of a round in which no connection arrives, the session that is
/// tracked is reported as the active one, and the server is probed.
pub open spec fn quiet_round(s: ServiceLoop, round: QuietRound) -> Seq<EventView> {
    if !round.ids.contains(s.session_id) || !round.share_rdp {
        seq![
            EventView::Sessions { ids: round.ids, share_rdp: round.share_rdp },
            EventView::ActiveSession(s.session_id),
            EventView::AcceptTimedOut,
            EventView::ActiveSession(s.session_id),
            EventView::ProcessStatus { queried: round.queried, exit_code: round.exit_code },
        ]
    } else {
        seq![
            EventView::Sessions { ids: round.ids, share_rdp: round.share_rdp },
            EventView::AcceptTimedOut,
            EventView::ActiveSession(s.session_id),
            EventView::ProcessStatus { queried: round.queried, exit_code: round.exit_code },
        ]
    }
}

/// The events of several quiet rounds, one after the other.
pub open spec fn quiet_rounds(s: ServiceLoop, rounds: Seq<QuietRound>) -> Seq<EventView>
    decreases rounds.len(),
{
    if rounds.len() == 0 {
        Seq::empty()
    } else {
        quiet_rounds(s, rounds.drop_last()) + quiet_round(s, rounds.last())
    }
}

/// A quiet round leaves the state as it was, and at no point of it is a server
/// launched, a handle closed or a close sent.
pub proof fn quiet_round_changes_nothing(s: ServiceLoop, round: QuietRound)
    requires
        s.phase is Enumerating,
        s.process is Some,
        s.session_id != NO_SESSION,
        round.alive(),
    ensures
        run(s, quiet_round(s, round)) == s,
        forall|k: int|
            0 <= k <= quiet_round(s, round).len() ==> #[trigger] run(
                s,
                quiet_round(s, round).take(k),
            ).process == s.process && run(s, quiet_round(s, round).take(k)).session_id
                == s.session_id,
        forall|i: int|
            0 <= i < quiet_round(s, round).len() ==> is_passive(
                #[trigger] requests(s, quiet_round(s, round))[i],
            ),
{
    let events = quiet_round(s, round);
    run_take(s, events, 1);
    run_take(s, events, 2);
    run_take(s, events, 3);
    run_take(s, events, 4);
    if events.len() == 5 {
        run_take(s, events, 5);
    }
    assert(events.take(events.len() as int) =~= events);
}

/// However many quiet rounds follow one another, the session that is tracked
/// and the handle of the server are what they were, and no server was
/// launched, no handle closed and no close sent on the way.
pub proof fn quiet_rounds_change_nothing(s: ServiceLoop, rounds: Seq<QuietRound>)
    requires
        s.phase is Enumerating,
        s.process is Some,
        s.session_id != NO_SESSION,
        forall|j: int| 0 <= j < rounds.len() ==> rounds[j].alive(),
    ensures
        run(s, quiet_rounds(s, rounds)) == s,
        forall|i: int|
            0 <= i < quiet_rounds(s, rounds).len() ==> is_passive(
                #[trigger] requests(s, quiet_rounds(s, rounds))[i],
            ),
    decreases rounds.len(),
{
    if rounds.len() > 0 {
        let before = quiet_rounds(s, rounds.drop_last());
        let last = quiet_round(s, rounds.last());
        let all = quiet_rounds(s, rounds);
        quiet_rounds_change_nothing(s, rounds.drop_last());
        quiet_round_changes_nothing(s, rounds.last());
        run_append(s, before, last);
        assert forall|i: int| 0 <= i < all.len() implies is_passive(
            #[trigger] requests(s, all)[i],
        ) by {
            if i < before.len() {
                assert(all.take(i + 1) =~= before.take(i + 1));
                assert(requests(s, all)[i] == requests(s, before)[i]);
            } else {
                let k = i - before.len();
                assert(all.take(i + 1) =~= before + last.take(k + 1));
                run_append(s, before, last.take(k + 1));
                assert(requests(s, all)[i] == requests(s, last)[k]);
            }
        }
    }
}

/// A session switch seen while the sessions are enumerated, with port
/// forwards active: the new session is recorded, the server is left alone, and
/// the loop goes on to wait for a connection.
pub proof fn switch_at_poll_keeps_forwards(
    s: ServiceLoop,
    ids: Seq<u32>,
    share_rdp: bool,
    active: u32,
    forwards: u32,
)
    requires
        s.phase is Enumerating,
        !ids.contains(s.session_id) || !share_rdp,
        active != s.session_id,
        forwards != 0,
    ensures
        run(
            s,
            seq![
                EventView::Sessions { ids, share_rdp },
                EventView::ActiveSession(active),
                EventView::PortForwards(Some(forwards)),
            ],
        ) == (ServiceLoop { phase: Phase::Accepting, session_id: active, ..s }),
        requests(
            s,
            seq![
                EventView::Sessions { ids, share_rdp },
                EventView::ActiveSession(active),
                EventView::PortForwards(Some(forwards)),
            ],
        ) == seq![Request::QueryActiveSession, Request::QueryPortForwards, Request::Accept],
{
    let events = seq![
        EventView::Sessions { ids, share_rdp },
        EventView::ActiveSession(active),
        EventView::PortForwards(Some(forwards)),
    ];
    run_take(s, events, 1);
    run_take(s, events, 2);
    run_take(s, events, 3);
    assert(events.take(3) =~= events);
    assert(requests(s, events) =~= seq![
        Request::QueryActiveSession,
        Request::QueryPortForwards,
        Request::Accept,
    ]);
}

/// A session switch seen after an accept timed out, with port forwards active
/// and the server alive: the new session is recorded, no close is sent, the
/// server is probed and left alone, and the next round begins.
pub proof fn switch_at_timeout_keeps_forwards(
    s: ServiceLoop,
    handle: ProcessHandle,
    active: u32,
    forwards: u32,
    queried: bool,
    exit_code: u32,
)
    requires
        s.phase is Accepting,
        s.process == Some(handle),
        active != NO_SESSION,
        active != s.session_id,
        s.stored_user_sid != Some(s.session_id),
        forwards != 0,
        !queried || exit_code == STILL_ACTIVE,
    ensures
        run(
            s,
            seq![
                EventView::AcceptTimedOut,
                EventView::ActiveSession(active),
                EventView::PortForwards(Some(forwards)),
                EventView::ProcessStatus { queried, exit_code },
            ],
        ) == (ServiceLoop { phase: Phase::Enumerating, session_id: active, ..s }),
        requests(
            s,
            seq![
                EventView::AcceptTimedOut,
                EventView::ActiveSession(active),
                EventView::PortForwards(Some(forwards)),
                EventView::ProcessStatus { queried, exit_code },
            ],
        ) == seq![
            Request::QueryActiveSession,
            Request::QueryPortForwards,
            Request::QueryProcess(handle),
            Request::QuerySessions,
        ],
{
    let events = seq![
        EventView::AcceptTimedOut,
        EventView::ActiveSession(active),
        EventView::PortForwards(Some(forwards)),
        EventView::ProcessStatus { queried, exit_code },
    ];
    run_take(s, events, 1);
    run_take(s, events, 2);
    run_take(s, events, 3);
    run_take(s, events, 4);
    assert(events.take(4) =~= events);
    assert(requests(s, events) =~= seq![
        Request::QueryActiveSession,
        Request::QueryPortForwards,
        Request::QueryProcess(handle),
        Request::QuerySessions,
    ]);
}

/// The fallback that corrects the state: when, after an accept timed out with
/// the tracked session still the one to serve, the server is found to have
/// exited and its handle is closed, a server is launched in the tracked
/// session, and told to close a previous one first.
pub proof fn exited_server_is_relaunched(
    s: ServiceLoop,
    handle: ProcessHandle,
    active: u32,
    exit_code: u32,
)
    requires
        s.phase is Accepting,
        s.process == Some(handle),
        active != NO_SESSION,
        active == s.session_id || s.stored_user_sid == Some(s.session_id),
        exit_code != STILL_ACTIVE,
    ensures
        requests(
            s,
            seq![
                EventView::AcceptTimedOut,
                EventView::ActiveSession(active),
                EventView::ProcessStatus { queried: true, exit_code },
                EventView::HandleClosed(true),
            ],
        ) == seq![
            Request::QueryActiveSession,
            Request::QueryProcess(handle),
            Request::CloseHandle(handle),
            Request::LaunchServer { session_id: s.session_id, close_first: true },
        ],
{
    let events = seq![
        EventView::AcceptTimedOut,
        EventView::ActiveSession(active),
        EventView::ProcessStatus { queried: true, exit_code },
        EventView::HandleClosed(true),
    ];
    run_take(s, events, 1);
    run_take(s, events, 2);
    run_take(s, events, 3);
    run_take(s, events, 4);
    assert(requests(s, events) =~= seq![
        Request::QueryActiveSession,
        Request::QueryProcess(handle),
        Request::CloseHandle(handle),
        Request::LaunchServer { session_id: s.session_id, close_first: true },
    ]);
}

/// A service without a server launches one as soon as an accept times out
/// while a session is active.
pub proof fn missing_server_is_launched(s: ServiceLoop, active: u32)
    requires
        s.phase is Accepting,
        s.process is None,
        active != NO_SESSION,
        active == s.session_id || s.stored_user_sid == Some(s.session_id),
    ensures
        requests(s, seq![EventView::AcceptTimedOut, EventView::ActiveSession(active)]) == seq![
            Request::QueryActiveSession,
            Request::LaunchServer { session_id: s.session_id, close_first: true },
        ],
{
    let events = seq![EventView::AcceptTimedOut, EventView::ActiveSession(active)];
    run_take(s, events, 1);
    run_take(s, events, 2);
    assert(requests(s, events) =~= seq![
        Request::QueryActiveSession,
        Request::LaunchServer { session_id: s.session_id, close_first: true },
    ]);
}

/// A count of port forwards that could not be read counts as zero.
pub proof fn unread_count_is_zero(s: ServiceLoop)
    ensures
        next(s, EventView::PortForwards(None)) == next(s, EventView::PortForwards(Some(0))),
{
}

/// After a session switch at a timeout without port forwards, the old server
/// is sent one close, and the launch that may follow sends no second one.
pub proof fn close_is_not_sent_twice(s: ServiceLoop, active: u32, sent: bool)
    requires
        s.phase is Accepting,
        s.process is None,
        active != NO_SESSION,
        active != s.session_id,
        s.stored_user_sid != Some(s.session_id),
    ensures
        requests(
            s,
            seq![
                EventView::AcceptTimedOut,
                EventView::ActiveSession(active),
                EventView::PortForwards(Some(0)),
                EventView::CloseSent(sent),
            ],
        ) == seq![
            Request::QueryActiveSession,
            Request::QueryPortForwards,
            Request::SendClose,
            Request::LaunchServer { session_id: active, close_first: false },
        ],
{
    let events = seq![
        EventView::AcceptTimedOut,
        EventView::ActiveSession(active),
        EventView::PortForwards(Some(0)),
        EventView::CloseSent(sent),
    ];
    run_take(s, events, 1);
    run_take(s, events, 2);
    run_take(s, events, 3);
    run_take(s, events, 4);
    assert(requests(s, events) =~= seq![
        Request::QueryActiveSession,
        Request::QueryPortForwards,
        Request::SendClose,
        Request::LaunchServer { session_id: active, close_first: false },
    ]);
}

/// A message that binds another session makes it the tracked and the stored
/// one, and a server is launched in it once the handle of the old one is
/// released.
pub proof fn binding_moves_the_server(s: ServiceLoop, handle: ProcessHandle, sid: u32, closed: bool)
    requires
        s.phase is Accepting,
        s.process == Some(handle),
        sid != s.session_id,
    ensures
        requests(
            s,
            seq![
                EventView::Message(ControlMessage::UserSid(Some(sid))),
                EventView::HandleClosed(closed),
            ],
        ) == seq![
            Request::CloseHandle(handle),
            Request::LaunchServer { session_id: sid, close_first: true },
        ],
        run(
            s,
            seq![
                EventView::Message(ControlMessage::UserSid(Some(sid))),
                EventView::HandleClosed(closed),
            ],
        ) == (ServiceLoop {
            phase: Phase::Launching { origin: Origin::Message, close_first: true },
            session_id: sid,
            process: None,
            stored_user_sid: Some(sid),
        }),
{
    let events = seq![
        EventView::Message(ControlMessage::UserSid(Some(sid))),
        EventView::HandleClosed(closed),
    ];
    run_take(s, events, 1);
    run_take(s, events, 2);
    assert(events.take(2) =~= events);
    assert(requests(s, events) =~= seq![
        Request::CloseHandle(handle),
        Request::LaunchServer { session_id: sid, close_first: true },
    ]);
}

} // verus!
