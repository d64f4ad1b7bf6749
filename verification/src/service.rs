//! The service control loop as a state machine.
//!
//! The machine never touches the operating system. It names the one thing it
//! wants done next (a [`Request`]), the driver does it and reports what
//! happened (an [`Event`]), and [`ServiceLoop::step`] decides what follows.
//! Every decision of the loop is therefore a transition of [`next`], and the
//! properties of the loop are theorems about `next`.

use crate::control::ControlMessage;
use crate::launcher::{LaunchError, ProcessHandle};
use vstd::prelude::*;

verus! {

/// The session id the operating system reports when no session is active.
pub const NO_SESSION: u32 = 0xFFFF_FFFF;

/// The exit code of a process that has not exited.
pub const STILL_ACTIVE: u32 = 259;

/// The four stages of a service's life.
#[derive(Clone, Copy, Debug, PartialEq, Eq, Structural)]
pub enum Lifecycle {
    Starting,
    Running,
    StoppingRequested,
    Stopped,
}

/// The failures that end the service.
#[derive(Clone, Copy, Debug, PartialEq, Eq, Structural)]
pub enum ServiceError {
    /// The control-event handler could not be registered.
    HandlerRegistration,
    /// The operating system refused a status report.
    StatusReport,
    /// Another instance owns the service's channel name.
    ListenerBind,
}

/// The states a service reports to the operating system.
#[derive(Clone, Copy, Debug, PartialEq, Eq, Structural)]
pub enum ReportedState {
    Running,
    Stopped,
}

/// The branch of the loop on whose behalf a server is launched.
#[derive(Clone, Copy, Debug, PartialEq, Eq, Structural)]
pub enum Origin {
    /// The first launch, before the listener is bound.
    Start,
    /// A session switch seen when the sessions were enumerated.
    Poll,
    /// A session bound by a `UserSid` message.
    Message,
    /// The liveness check after an accept timed out.
    Timeout,
}

/// What the machine is waiting for.
#[derive(Clone, Copy, Debug, PartialEq, Eq)]
pub enum Phase {
    Registering,
    ReportingRunning,
    ResolvingInitial,
    Binding,
    /// The listener could not be bound; the server's handle is being released.
    Abandoning { handle: ProcessHandle },
    Enumerating,
    ResolvingAtPoll,
    CountingAtPoll,
    /// The handle of the superseded server is released before a launch replaces it.
    Releasing { handle: ProcessHandle, origin: Origin },
    Launching { origin: Origin, close_first: bool },
    Accepting,
    InjectingSas,
    ResolvingAtTimeout,
    CountingAtTimeout,
    /// The old server is told to close after a session switch.
    ClosingPeer,
    Probing { handle: ProcessHandle, close_sent: bool },
    /// The handle of an exited server is being closed.
    Reaping { handle: ProcessHandle, close_sent: bool },
    /// Shutdown: the server is told to close.
    NotifyingPeer { handle: ProcessHandle },
    /// Shutdown: the server's handle is being closed.
    ReleasingHandle { handle: ProcessHandle },
    ReportingStopped,
    Finished(Result<(), ServiceError>),
}

/// The one thing the machine wants done next.
#[derive(Clone, Copy, Debug, PartialEq, Eq)]
pub enum Request {
    /// Register the handler for service control events.
    RegisterHandler,
    /// Report a state to the operating system.
    ReportStatus(ReportedState),
    /// Ask which session is active.
    QueryActiveSession,
    /// Launch the server in a session, telling a previous one to close first if asked.
    LaunchServer { session_id: u32, close_first: bool },
    /// Bind the service's listener.
    BindListener,
    /// Enumerate the session ids and read whether remote sessions are shared.
    QuerySessions,
    /// Ask the server how many port forwards are active.
    QueryPortForwards,
    /// Wait for a connection and read one message from it.
    Accept,
    /// Inject a secure attention sequence.
    SendSas,
    /// Tell the server to close; failure is ignored.
    SendClose,
    /// Read the exit code of the server process.
    QueryProcess(ProcessHandle),
    /// Close a process handle.
    CloseHandle(ProcessHandle),
    /// Leave the service entry point with this result.
    Exit(Result<(), ServiceError>),
}

/// What the driver reports back.
#[derive(Debug, PartialEq, Eq)]
pub enum Event {
    HandlerRegistered(bool),
    StatusReported(bool),
    ActiveSession(u32),
    Launched(Result<ProcessHandle, LaunchError>),
    ListenerBound(bool),
    Sessions { ids: Vec<u32>, share_rdp: bool },
    /// The number of active port forwards; `None` when the query failed.
    PortForwards(Option<u32>),
    /// A connection arrived and a message was read from it in time.
    Message(ControlMessage),
    /// The wait ended with no message: no connection, or one that said nothing in time.
    Silent,
    AcceptTimedOut,
    SasSent,
    CloseSent(bool),
    /// Whether the exit code could be read, and the code.
    ProcessStatus { queried: bool, exit_code: u32 },
    HandleClosed(bool),
}

/// An event as the specification sees it.
pub ghost enum EventView {
    HandlerRegistered(bool),
    StatusReported(bool),
    ActiveSession(u32),
    Launched(Result<ProcessHandle, LaunchError>),
    ListenerBound(bool),
    Sessions { ids: Seq<u32>, share_rdp: bool },
    PortForwards(Option<u32>),
    Message(ControlMessage),
    Silent,
    AcceptTimedOut,
    SasSent,
    CloseSent(bool),
    ProcessStatus { queried: bool, exit_code: u32 },
    HandleClosed(bool),
}

impl View for Event {
    type V = EventView;

    open spec fn view(&self) -> EventView {
        match *self {
            Event::HandlerRegistered(ok) => EventView::HandlerRegistered(ok),
            Event::StatusReported(ok) => EventView::StatusReported(ok),
            Event::ActiveSession(sid) => EventView::ActiveSession(sid),
            Event::Launched(r) => EventView::Launched(r),
            Event::ListenerBound(ok) => EventView::ListenerBound(ok),
            Event::Sessions { ids, share_rdp } => EventView::Sessions { ids: ids@, share_rdp },
            Event::PortForwards(n) => EventView::PortForwards(n),
            Event::Message(m) => EventView::Message(m),
            Event::Silent => EventView::Silent,
            Event::AcceptTimedOut => EventView::AcceptTimedOut,
            Event::SasSent => EventView::SasSent,
            Event::CloseSent(ok) => EventView::CloseSent(ok),
            Event::ProcessStatus { queried, exit_code } => EventView::ProcessStatus {
                queried,
                exit_code,
            },
            Event::HandleClosed(ok) => EventView::HandleClosed(ok),
        }
    }
}

/// The working state of the service.
#[derive(Clone, Copy, Debug, PartialEq, Eq)]
pub struct ServiceLoop {
    pub phase: Phase,
    /// The session the server is meant to run in.
    pub session_id: u32,
    /// The server process, while one is tracked.
    pub process: Option<ProcessHandle>,
    /// The session most recently bound by a `UserSid` message.
    pub stored_user_sid: Option<u32>,
}

/// The stage of life a phase belongs to.
pub open spec fn lifecycle_of(phase: Phase) -> Lifecycle {
    match phase {
        Phase::Registering
        | Phase::ReportingRunning
        | Phase::ResolvingInitial
        | Phase::Binding
        | Phase::Abandoning { .. } => Lifecycle::Starting,
        Phase::Launching { origin, .. } | Phase::Releasing { origin, .. } => if origin is Start {
            Lifecycle::Starting
        } else {
            Lifecycle::Running
        },
        Phase::NotifyingPeer { .. }
        | Phase::ReleasingHandle { .. }
        | Phase::ReportingStopped => Lifecycle::StoppingRequested,
        Phase::Finished(_) => Lifecycle::Stopped,
        _ => Lifecycle::Running,
    }
}

/// The position of a stage in the order of a service's life.
pub open spec fn rank(stage: Lifecycle) -> int {
    match stage {
        Lifecycle::Starting => 0,
        Lifecycle::Running => 1,
        Lifecycle::StoppingRequested => 2,
        Lifecycle::Stopped => 3,
    }
}

/// The handle a launch leaves to be tracked: none for a failure, and none for
/// a null handle, which always means failure.
pub open spec fn kept_handle(result: Result<ProcessHandle, LaunchError>) -> Option<ProcessHandle> {
    match result {
        Ok(h) => if h.raw != 0 {
            Some(h)
        } else {
            None
        },
        Err(_) => None,
    }
}

/// Where the loop goes on once a launch on behalf of `origin` has been answered.
pub open spec fn after_launch(origin: Origin) -> Phase {
    match origin {
        Origin::Start => Phase::Binding,
        Origin::Poll => Phase::Accepting,
        Origin::Message => Phase::Enumerating,
        Origin::Timeout => Phase::Enumerating,
    }
}

/// The initial state: nothing tracked, the handler not yet registered.
pub open spec fn initial() -> ServiceLoop {
    ServiceLoop {
        phase: Phase::Registering,
        session_id: NO_SESSION,
        process: None,
        stored_user_sid: None,
    }
}

/// A launch that replaces the tracked server: the stale handle is released first.
pub open spec fn replace_server(s: ServiceLoop, origin: Origin) -> ServiceLoop {
    match s.process {
        Some(handle) => ServiceLoop { phase: Phase::Releasing { handle, origin }, ..s },
        None => ServiceLoop { phase: Phase::Launching { origin, close_first: true }, ..s },
    }
}

/// The liveness check that follows an accept timeout: a missing server is
/// launched at once, a tracked one is asked for its exit code.
pub open spec fn check_liveness(s: ServiceLoop, close_sent: bool) -> ServiceLoop {
    match s.process {
        Some(handle) => ServiceLoop { phase: Phase::Probing { handle, close_sent }, ..s },
        None => ServiceLoop {
            phase: Phase::Launching { origin: Origin::Timeout, close_first: !close_sent },
            ..s
        },
    }
}

/// The start of the shutdown: a tracked server is told to close and its
/// handle released; then the stopped state is reported.
pub open spec fn begin_shutdown(s: ServiceLoop) -> ServiceLoop {
    match s.process {
        Some(handle) => ServiceLoop { phase: Phase::NotifyingPeer { handle }, ..s },
        None => ServiceLoop { phase: Phase::ReportingStopped, ..s },
    }
}

/// The reaction to a message read from an accepted connection.
pub open spec fn on_message(s: ServiceLoop, message: ControlMessage) -> ServiceLoop {
    match message {
        ControlMessage::Close => begin_shutdown(s),
        ControlMessage::SAS => ServiceLoop { phase: Phase::InjectingSas, ..s },
        ControlMessage::UserSid(Some(sid)) => if sid != s.session_id {
            replace_server(
                ServiceLoop { session_id: sid, stored_user_sid: Some(sid), ..s },
                Origin::Message,
            )
        } else {
            ServiceLoop { phase: Phase::Enumerating, ..s }
        },
        _ => ServiceLoop { phase: Phase::Enumerating, ..s },
    }
}

/// The transition function: the state that follows `s` when `e` is reported.
/// An event that does not answer what the machine is waiting for changes nothing.
pub open spec fn next(s: ServiceLoop, e: EventView) -> ServiceLoop {
    match (s.phase, e) {
        (Phase::Registering, EventView::HandlerRegistered(ok)) => if ok {
            ServiceLoop { phase: Phase::ReportingRunning, ..s }
        } else {
            ServiceLoop { phase: Phase::Finished(Err(ServiceError::HandlerRegistration)), ..s }
        },
        (Phase::ReportingRunning, EventView::StatusReported(ok)) => if ok {
            ServiceLoop { phase: Phase::ResolvingInitial, ..s }
        } else {
            ServiceLoop { phase: Phase::Finished(Err(ServiceError::StatusReport)), ..s }
        },
        (Phase::ResolvingInitial, EventView::ActiveSession(sid)) => ServiceLoop {
            phase: Phase::Launching { origin: Origin::Start, close_first: true },
            session_id: sid,
            ..s
        },
        (Phase::Launching { origin, .. }, EventView::Launched(result)) => ServiceLoop {
            phase: after_launch(origin),
            process: kept_handle(result),
            ..s
        },
        (Phase::Binding, EventView::ListenerBound(ok)) => if ok {
            ServiceLoop { phase: Phase::Enumerating, ..s }
        } else {
            match s.process {
                Some(handle) => ServiceLoop { phase: Phase::Abandoning { handle }, ..s },
                None => ServiceLoop {
                    phase: Phase::Finished(Err(ServiceError::ListenerBind)),
                    ..s
                },
            }
        },
        (Phase::Abandoning { .. }, EventView::HandleClosed(_)) => ServiceLoop {
            phase: Phase::Finished(Err(ServiceError::ListenerBind)),
            process: None,
            ..s
        },
        (Phase::Enumerating, EventView::Sessions { ids, share_rdp }) => if !ids.contains(
            s.session_id,
        ) || !share_rdp {
            ServiceLoop { phase: Phase::ResolvingAtPoll, ..s }
        } else {
            ServiceLoop { phase: Phase::Accepting, ..s }
        },
        (Phase::ResolvingAtPoll, EventView::ActiveSession(sid)) => if sid != s.session_id {
            ServiceLoop { phase: Phase::CountingAtPoll, session_id: sid, ..s }
        } else {
            ServiceLoop { phase: Phase::Accepting, ..s }
        },
        (Phase::CountingAtPoll, EventView::PortForwards(count)) => if count.unwrap_or(0) == 0 {
            replace_server(s, Origin::Poll)
        } else {
            ServiceLoop { phase: Phase::Accepting, ..s }
        },
        (Phase::Releasing { origin, .. }, EventView::HandleClosed(_)) => ServiceLoop {
            phase: Phase::Launching { origin, close_first: true },
            process: None,
            ..s
        },
        (Phase::Accepting, EventView::Message(message)) => on_message(s, message),
        (Phase::Accepting, EventView::Silent) => ServiceLoop { phase: Phase::Enumerating, ..s },
        (Phase::Accepting, EventView::AcceptTimedOut) => ServiceLoop {
            phase: Phase::ResolvingAtTimeout,
            ..s
        },
        (Phase::InjectingSas, EventView::SasSent) => ServiceLoop { phase: Phase::Enumerating, ..s },
        (Phase::ResolvingAtTimeout, EventView::ActiveSession(sid)) => if sid == NO_SESSION {
            ServiceLoop { phase: Phase::Enumerating, ..s }
        } else if sid != s.session_id && s.stored_user_sid != Some(s.session_id) {
            ServiceLoop { phase: Phase::CountingAtTimeout, session_id: sid, ..s }
        } else {
            check_liveness(s, false)
        },
        (Phase::CountingAtTimeout, EventView::PortForwards(count)) => if count.unwrap_or(0)
            == 0 {
            ServiceLoop { phase: Phase::ClosingPeer, ..s }
        } else {
            check_liveness(s, false)
        },
        (Phase::ClosingPeer, EventView::CloseSent(_)) => check_liveness(s, true),
        (Phase::Probing { handle, close_sent }, EventView::ProcessStatus { queried, exit_code }) =>
            if queried && exit_code != STILL_ACTIVE {
            ServiceLoop { phase: Phase::Reaping { handle, close_sent }, ..s }
        } else {
            ServiceLoop { phase: Phase::Enumerating, ..s }
        },
        (Phase::Reaping { close_sent, .. }, EventView::HandleClosed(ok)) => if ok {
            ServiceLoop {
                phase: Phase::Launching { origin: Origin::Timeout, close_first: !close_sent },
                process: None,
                ..s
            }
        } else {
            ServiceLoop { phase: Phase::Enumerating, ..s }
        },
        (Phase::NotifyingPeer { handle }, EventView::CloseSent(_)) => ServiceLoop {
            phase: Phase::ReleasingHandle { handle },
            ..s
        },
        (Phase::ReleasingHandle { .. }, EventView::HandleClosed(_)) => ServiceLoop {
            phase: Phase::ReportingStopped,
            process: None,
            ..s
        },
        (Phase::ReportingStopped, EventView::StatusReported(ok)) => if ok {
            ServiceLoop { phase: Phase::Finished(Ok(())), ..s }
        } else {
            ServiceLoop { phase: Phase::Finished(Err(ServiceError::StatusReport)), ..s }
        },
        _ => s,
    }
}

/// The request a state is waiting on.
pub open spec fn pending_of(s: ServiceLoop) -> Request {
    match s.phase {
        Phase::Registering => Request::RegisterHandler,
        Phase::ReportingRunning => Request::ReportStatus(ReportedState::Running),
        Phase::ResolvingInitial
        | Phase::ResolvingAtPoll
        | Phase::ResolvingAtTimeout => Request::QueryActiveSession,
        Phase::Binding => Request::BindListener,
        Phase::Abandoning { handle } => Request::CloseHandle(handle),
        Phase::Enumerating => Request::QuerySessions,
        Phase::CountingAtPoll | Phase::CountingAtTimeout => Request::QueryPortForwards,
        Phase::Releasing { handle, .. } => Request::CloseHandle(handle),
        Phase::Launching { close_first, .. } => Request::LaunchServer {
            session_id: s.session_id,
            close_first,
        },
        Phase::Accepting => Request::Accept,
        Phase::InjectingSas => Request::SendSas,
        Phase::ClosingPeer => Request::SendClose,
        Phase::Probing { handle, .. } => Request::QueryProcess(handle),
        Phase::Reaping { handle, .. } => Request::CloseHandle(handle),
        Phase::NotifyingPeer { .. } => Request::SendClose,
        Phase::ReleasingHandle { handle } => Request::CloseHandle(handle),
        Phase::ReportingStopped => Request::ReportStatus(ReportedState::Stopped),
        Phase::Finished(result) => Request::Exit(result),
    }
}

/// Whether `ids` holds `id`.
pub fn contains_id(ids: &Vec<u32>, id: u32) -> (r: bool)
    ensures
        r == ids@.contains(id),
{
    let mut i: usize = 0;
    while i < ids.len()
        invariant
            i <= ids.len(),
            forall|j: int| 0 <= j < i ==> ids@[j] != id,
        decreases ids.len() - i,
    {
        if ids[i] == id {
            return true;
        }
        i += 1;
    }
    false
}

impl ServiceLoop {
    /// The handle record is sound: a tracked handle is never null, a phase that
    /// works on a handle works on the tracked one, and no handle is tracked
    /// before the first launch, while a launch is under way, or once the
    /// stopped state is being reported.
    pub open spec fn wf(self) -> bool {
        &&& self.process matches Some(h) ==> h.wf()
        &&& match self.phase {
            Phase::Registering
            | Phase::ReportingRunning
            | Phase::ResolvingInitial
            | Phase::Launching { .. }
            | Phase::ReportingStopped
            | Phase::Finished(_) => self.process is None,
            Phase::Abandoning { handle }
            | Phase::Releasing { handle, .. }
            | Phase::Probing { handle, .. }
            | Phase::Reaping { handle, .. }
            | Phase::NotifyingPeer { handle }
            | Phase::ReleasingHandle { handle } => self.process == Some(handle),
            _ => true,
        }
    }

    /// A service that has not started yet.
    pub fn new() -> (s: Self)
        ensures
            s == initial(),
            s.wf(),
    {
        ServiceLoop {
            phase: Phase::Registering,
            session_id: NO_SESSION,
            process: None,
            stored_user_sid: None,
        }
    }

    /// The request the machine is waiting on.
    pub fn pending(&self) -> (r: Request)
        ensures
            r == pending_of(*self),
    {
        match self.phase {
            Phase::Registering => Request::RegisterHandler,
            Phase::ReportingRunning => Request::ReportStatus(ReportedState::Running),
            Phase::ResolvingInitial => Request::QueryActiveSession,
            Phase::ResolvingAtPoll => Request::QueryActiveSession,
            Phase::ResolvingAtTimeout => Request::QueryActiveSession,
            Phase::Binding => Request::BindListener,
            Phase::Abandoning { handle } => Request::CloseHandle(handle),
            Phase::Enumerating => Request::QuerySessions,
            Phase::CountingAtPoll => Request::QueryPortForwards,
            Phase::CountingAtTimeout => Request::QueryPortForwards,
            Phase::Releasing { handle, .. } => Request::CloseHandle(handle),
            Phase::Launching { close_first, .. } => Request::LaunchServer {
                session_id: self.session_id,
                close_first,
            },
            Phase::Accepting => Request::Accept,
            Phase::InjectingSas => Request::SendSas,
            Phase::ClosingPeer => Request::SendClose,
            Phase::Probing { handle, .. } => Request::QueryProcess(handle),
            Phase::Reaping { handle, .. } => Request::CloseHandle(handle),
            Phase::NotifyingPeer { .. } => Request::SendClose,
            Phase::ReleasingHandle { handle } => Request::CloseHandle(handle),
            Phase::ReportingStopped => Request::ReportStatus(ReportedState::Stopped),
            Phase::Finished(result) => Request::Exit(result),
        }
    }

    /// The stage of life the service is in.
    pub fn lifecycle(&self) -> (r: Lifecycle)
        ensures
            r == lifecycle_of(self.phase),
    {
        match self.phase {
            Phase::Registering => Lifecycle::Starting,
            Phase::ReportingRunning => Lifecycle::Starting,
            Phase::ResolvingInitial => Lifecycle::Starting,
            Phase::Binding => Lifecycle::Starting,
            Phase::Abandoning { .. } => Lifecycle::Starting,
            Phase::Launching { origin, .. } => match origin {
                Origin::Start => Lifecycle::Starting,
                _ => Lifecycle::Running,
            },
            Phase::Releasing { origin, .. } => match origin {
                Origin::Start => Lifecycle::Starting,
                _ => Lifecycle::Running,
            },
            Phase::NotifyingPeer { .. } => Lifecycle::StoppingRequested,
            Phase::ReleasingHandle { .. } => Lifecycle::StoppingRequested,
            Phase::ReportingStopped => Lifecycle::StoppingRequested,
            Phase::Finished(_) => Lifecycle::Stopped,
            _ => Lifecycle::Running,
        }
    }

    /// Whether the loop has been left for good.
    pub fn is_finished(&self) -> (r: bool)
        ensures
            r == (self.phase is Finished),
    {
        match self.phase {
            Phase::Finished(_) => true,
            _ => false,
        }
    }

    fn with_phase(&self, phase: Phase) -> (r: Self)
        ensures
            r == (ServiceLoop { phase, ..*self }),
    {
        ServiceLoop {
            phase,
            session_id: self.session_id,
            process: self.process,
            stored_user_sid: self.stored_user_sid,
        }
    }

    fn replaced(&self, origin: Origin) -> (r: Self)
        ensures
            r == replace_server(*self, origin),
    {
        match self.process {
            Some(handle) => self.with_phase(Phase::Releasing { handle, origin }),
            None => self.with_phase(Phase::Launching { origin, close_first: true }),
        }
    }

    fn checked(&self, close_sent: bool) -> (r: Self)
        ensures
            r == check_liveness(*self, close_sent),
    {
        match self.process {
            Some(handle) => self.with_phase(Phase::Probing { handle, close_sent }),
            None => self.with_phase(
                Phase::Launching { origin: Origin::Timeout, close_first: !close_sent },
            ),
        }
    }

    fn shut_down(&self) -> (r: Self)
        ensures
            r == begin_shutdown(*self),
    {
        match self.process {
            Some(handle) => self.with_phase(Phase::NotifyingPeer { handle }),
            None => self.with_phase(Phase::ReportingStopped),
        }
    }

    fn received(&self, message: ControlMessage) -> (r: Self)
        ensures
            r == on_message(*self, message),
    {
        match message {
            ControlMessage::Close => self.shut_down(),
            ControlMessage::SAS => self.with_phase(Phase::InjectingSas),
            ControlMessage::UserSid(Some(sid)) => {
                if sid != self.session_id {
                    let bound = ServiceLoop {
                        phase: self.phase,
                        session_id: sid,
                        process: self.process,
                        stored_user_sid: Some(sid),
                    };
                    bound.replaced(Origin::Message)
                } else {
                    self.with_phase(Phase::Enumerating)
                }
            },
            _ => self.with_phase(Phase::Enumerating),
        }
    }

    fn advanced(&self, event: Event) -> (r: Self)
        ensures
            r == next(*self, event@),
    {
        let s = *self;
        match (s.phase, event) {
            (Phase::Registering, Event::HandlerRegistered(ok)) => {
                if ok {
                    s.with_phase(Phase::ReportingRunning)
                } else {
                    s.with_phase(Phase::Finished(Err(ServiceError::HandlerRegistration)))
                }
            },
            (Phase::ReportingRunning, Event::StatusReported(ok)) => {
                if ok {
                    s.with_phase(Phase::ResolvingInitial)
                } else {
                    s.with_phase(Phase::Finished(Err(ServiceError::StatusReport)))
                }
            },
            (Phase::ResolvingInitial, Event::ActiveSession(sid)) => ServiceLoop {
                phase: Phase::Launching { origin: Origin::Start, close_first: true },
                session_id: sid,
                process: s.process,
                stored_user_sid: s.stored_user_sid,
            },
            (Phase::Launching { origin, .. }, Event::Launched(result)) => {
                let process = match result {
                    Ok(h) => if h.raw != 0 {
                        Some(h)
                    } else {
                        None
                    },
                    Err(_) => None,
                };
                let phase = match origin {
                    Origin::Start => Phase::Binding,
                    Origin::Poll => Phase::Accepting,
                    Origin::Message => Phase::Enumerating,
                    Origin::Timeout => Phase::Enumerating,
                };
                ServiceLoop {
                    phase,
                    session_id: s.session_id,
                    process,
                    stored_user_sid: s.stored_user_sid,
                }
            },
            (Phase::Binding, Event::ListenerBound(ok)) => {
                if ok {
                    s.with_phase(Phase::Enumerating)
                } else {
                    match s.process {
                        Some(handle) => s.with_phase(Phase::Abandoning { handle }),
                        None => s.with_phase(Phase::Finished(Err(ServiceError::ListenerBind))),
                    }
                }
            },
            (Phase::Abandoning { .. }, Event::HandleClosed(_)) => ServiceLoop {
                phase: Phase::Finished(Err(ServiceError::ListenerBind)),
                session_id: s.session_id,
                process: None,
                stored_user_sid: s.stored_user_sid,
            },
            (Phase::Enumerating, Event::Sessions { ids, share_rdp }) => {
                if !contains_id(&ids, s.session_id) || !share_rdp {
                    s.with_phase(Phase::ResolvingAtPoll)
                } else {
                    s.with_phase(Phase::Accepting)
                }
            },
            (Phase::ResolvingAtPoll, Event::ActiveSession(sid)) => {
                if sid != s.session_id {
                    ServiceLoop {
                        phase: Phase::CountingAtPoll,
                        session_id: sid,
                        process: s.process,
                        stored_user_sid: s.stored_user_sid,
                    }
                } else {
                    s.with_phase(Phase::Accepting)
                }
            },
            (Phase::CountingAtPoll, Event::PortForwards(count)) => {
                if count.unwrap_or(0) == 0 {
                    s.replaced(Origin::Poll)
                } else {
                    s.with_phase(Phase::Accepting)
                }
            },
            (Phase::Releasing { origin, .. }, Event::HandleClosed(_)) => ServiceLoop {
                phase: Phase::Launching { origin, close_first: true },
                session_id: s.session_id,
                process: None,
                stored_user_sid: s.stored_user_sid,
            },
            (Phase::Accepting, Event::Message(message)) => s.received(message),
            (Phase::Accepting, Event::Silent) => s.with_phase(Phase::Enumerating),
            (Phase::Accepting, Event::AcceptTimedOut) => s.with_phase(Phase::ResolvingAtTimeout),
            (Phase::InjectingSas, Event::SasSent) => s.with_phase(Phase::Enumerating),
            (Phase::ResolvingAtTimeout, Event::ActiveSession(sid)) => {
                if sid == NO_SESSION {
                    s.with_phase(Phase::Enumerating)
                } else if sid != s.session_id && !is_bound_to(s.stored_user_sid, s.session_id) {
                    ServiceLoop {
                        phase: Phase::CountingAtTimeout,
                        session_id: sid,
                        process: s.process,
                        stored_user_sid: s.stored_user_sid,
                    }
                } else {
                    s.checked(false)
                }
            },
            (Phase::CountingAtTimeout, Event::PortForwards(count)) => {
                if count.unwrap_or(0) == 0 {
                    s.with_phase(Phase::ClosingPeer)
                } else {
                    s.checked(false)
                }
            },
            (Phase::ClosingPeer, Event::CloseSent(_)) => s.checked(true),
            (Phase::Probing { handle, close_sent }, Event::ProcessStatus { queried, exit_code }) => {
                if queried && exit_code != STILL_ACTIVE {
                    s.with_phase(Phase::Reaping { handle, close_sent })
                } else {
                    s.with_phase(Phase::Enumerating)
                }
            },
            (Phase::Reaping { close_sent, .. }, Event::HandleClosed(ok)) => {
                if ok {
                    ServiceLoop {
                        phase: Phase::Launching {
                            origin: Origin::Timeout,
                            close_first: !close_sent,
                        },
                        session_id: s.session_id,
                        process: None,
                        stored_user_sid: s.stored_user_sid,
                    }
                } else {
                    s.with_phase(Phase::Enumerating)
                }
            },
            (Phase::NotifyingPeer { handle }, Event::CloseSent(_)) => s.with_phase(
                Phase::ReleasingHandle { handle },
            ),
            (Phase::ReleasingHandle { .. }, Event::HandleClosed(_)) => ServiceLoop {
                phase: Phase::ReportingStopped,
                session_id: s.session_id,
                process: None,
                stored_user_sid: s.stored_user_sid,
            },
            (Phase::ReportingStopped, Event::StatusReported(ok)) => {
                if ok {
                    s.with_phase(Phase::Finished(Ok(())))
                } else {
                    s.with_phase(Phase::Finished(Err(ServiceError::StatusReport)))
                }
            },
            _ => s,
        }
    }

    /// Takes in what the driver reports and answers with what to do next.
    ///
    /// The new state is `next` of the old state and the event, and the answer
    /// is the request that state is waiting on. A sound handle record stays
    /// sound.
    pub fn step(&mut self, event: Event) -> (request: Request)
        ensures
            *final(self) == next(*old(self), event@),
            request == pending_of(*final(self)),
            old(self).wf() ==> final(self).wf(),
    {
        proof {
            if self.wf() {
                step_keeps_wf(*self, event@);
            }
        }
        let after = self.advanced(event);
        *self = after;
        self.pending()
    }
}

/// Whether `stored` is a binding to `session_id`.
fn is_bound_to(stored: Option<u32>, session_id: u32) -> (r: bool)
    ensures
        r == (stored == Some(session_id)),
{
    match stored {
        Some(sid) => sid == session_id,
        None => false,
    }
}

/// A transition keeps the handle record sound.
pub proof fn step_keeps_wf(s: ServiceLoop, e: EventView)
    requires
        s.wf(),
    ensures
        next(s, e).wf(),
{
}

} // verus!
