//! Launching a process in another session: what is asked of the operating
//! system, and how its answer is classified.

use crate::text::{append_str, chars_of, slices, string_of};
use crate::wide::{utf16_of, wide_string};
use vstd::prelude::*;

verus! {

/// A live process handle together with the facts of the launch that produced it.
#[derive(Clone, Copy, Debug, PartialEq, Eq, Structural)]
pub struct ProcessHandle {
    /// The raw handle value; never zero for a handle that was classified.
    pub raw: u64,
    /// The process whose token was duplicated for the launch.
    pub token_pid: u32,
    /// The session the process was started in.
    pub session_id: u32,
    /// Whether the process runs under the logged-on user's identity.
    pub as_user: bool,
    /// Whether the process was started with a visible window.
    pub show: bool,
}

impl ProcessHandle {
    /// A handle is usable when it is not the null handle.
    pub open spec fn wf(self) -> bool {
        self.raw != 0
    }
}

/// Why a launch produced no process.
#[derive(Clone, Copy, Debug, PartialEq, Eq, Structural)]
pub enum LaunchError {
    /// No process in the target session could lend its token.
    NoDonorProcess,
    /// A donor was found, but creating the process failed.
    CreateFailed { token_pid: u32, os_error: u32 },
    /// The path of the running executable could not be determined.
    NoExecutablePath,
    /// The session of the calling process could not be determined.
    NoCurrentSession,
}

impl LaunchError {
    pub open spec fn spec_token_pid(&self) -> u32 {
        match *self {
            LaunchError::CreateFailed { token_pid, .. } => token_pid,
            _ => 0,
        }
    }

    pub open spec fn spec_os_error(&self) -> u32 {
        match *self {
            LaunchError::CreateFailed { os_error, .. } => os_error,
            _ => 0,
        }
    }

    /// The donor process of the failed launch; zero when none was found.
    #[verifier::when_used_as_spec(spec_token_pid)]
    pub fn token_pid(&self) -> (r: u32)
        ensures
            r == self.spec_token_pid(),
    {
        match self {
            LaunchError::CreateFailed { token_pid, .. } => *token_pid,
            _ => 0,
        }
    }

    /// The error code the operating system gave; zero when no call was made.
    #[verifier::when_used_as_spec(spec_os_error)]
    pub fn os_error(&self) -> (r: u32)
        ensures
            r == self.spec_os_error(),
    {
        match self {
            LaunchError::CreateFailed { os_error, .. } => *os_error,
            _ => 0,
        }
    }
}

/// What the operating system answered to a launch.
#[derive(Clone, Copy, Debug, PartialEq, Eq, Structural)]
pub struct LaunchOutcome {
    /// The raw handle of the new process; zero when none was created.
    pub raw_handle: u64,
    /// The donor process; zero when none was found.
    pub token_pid: u32,
    /// The last error code of the calling thread.
    pub os_error: u32,
}

/// The classification of an answer for a launch into `session_id`.
pub open spec fn classify(
    session_id: u32,
    as_user: bool,
    show: bool,
    outcome: LaunchOutcome,
) -> Result<ProcessHandle, LaunchError> {
    if outcome.raw_handle != 0 {
        Ok(
            ProcessHandle {
                raw: outcome.raw_handle,
                token_pid: outcome.token_pid,
                session_id,
                as_user,
                show,
            },
        )
    } else if outcome.token_pid == 0 {
        Err(LaunchError::NoDonorProcess)
    } else {
        Err(LaunchError::CreateFailed { token_pid: outcome.token_pid, os_error: outcome.os_error })
    }
}

/// Classifies the answer of the operating system to a launch.
pub fn classify_launch(session_id: u32, as_user: bool, show: bool, outcome: LaunchOutcome) -> (r:
    Result<ProcessHandle, LaunchError>)
    ensures
        r == classify(session_id, as_user, show, outcome),
        r is Ok <==> outcome.raw_handle != 0,
        r matches Ok(h) ==> h.wf(),
{
    if outcome.raw_handle != 0 {
        Ok(
            ProcessHandle {
                raw: outcome.raw_handle,
                token_pid: outcome.token_pid,
                session_id,
                as_user,
                show,
            },
        )
    } else if outcome.token_pid == 0 {
        Err(LaunchError::NoDonorProcess)
    } else {
        Err(LaunchError::CreateFailed { token_pid: outcome.token_pid, os_error: outcome.os_error })
    }
}

/// A failed launch is of exactly one class: without a donor its error names no
/// donor process, and with a donor it names that donor and carries the error
/// code of the operating system.
pub proof fn launch_failure_classes(session_id: u32, as_user: bool, show: bool, outcome: LaunchOutcome)
    requires
        outcome.raw_handle == 0,
    ensures
        classify(session_id, as_user, show, outcome) is Err,
        outcome.token_pid == 0 <==> classify(session_id, as_user, show, outcome)
            == Err::<ProcessHandle, LaunchError>(LaunchError::NoDonorProcess),
        outcome.token_pid == 0 <==> classify(
            session_id,
            as_user,
            show,
            outcome,
        ).unwrap_err().spec_token_pid() == 0,
        outcome.token_pid != 0 ==> classify(session_id, as_user, show, outcome)
            == Err::<ProcessHandle, LaunchError>(
            LaunchError::CreateFailed { token_pid: outcome.token_pid, os_error: outcome.os_error },
        ),
        outcome.token_pid != 0 && outcome.os_error != 0 ==> classify(
            session_id,
            as_user,
            show,
            outcome,
        ).unwrap_err().spec_os_error() != 0,
{
}

/// The parts of a text, with `sep` between every two of them.
pub open spec fn joined(parts: Seq<Seq<char>>, sep: Seq<char>) -> Seq<char>
    decreases parts.len(),
{
    if parts.len() == 0 {
        Seq::<char>::empty()
    } else if parts.len() == 1 {
        parts[0]
    } else {
        joined(parts.drop_last(), sep) + sep + parts.last()
    }
}

/// The command line that runs `exe` with `args`: the executable in double
/// quotes, a space, and the arguments with a space between every two.
pub open spec fn quoted_command(exe: Seq<char>, args: Seq<Seq<char>>) -> Seq<char> {
    "\""@ + exe + "\" "@ + joined(args, " "@)
}

/// The command line that runs `exe` as the interactive server.
pub open spec fn server_command(exe: Seq<char>) -> Seq<char> {
    "\""@ + exe + "\" --server"@
}

/// What the operating system is asked for a launch.
#[derive(Debug, PartialEq, Eq)]
pub struct LaunchRequest {
    /// The command line in UTF-16, ended by a zero unit.
    pub command_line: Vec<u16>,
    /// The session to launch into.
    pub session_id: u32,
    /// Whether the process is to run as the logged-on user.
    pub as_user: bool,
    /// Whether the process is to have a visible window.
    pub show: bool,
}

impl LaunchRequest {
    /// Classifies the answer to this request: a handle is a success, no donor
    /// process is one class of failure, a failed creation the other.
    pub fn complete(&self, outcome: LaunchOutcome) -> (r: Result<ProcessHandle, LaunchError>)
        ensures
            r == classify(self.session_id, self.as_user, self.show, outcome),
            r is Ok <==> outcome.raw_handle != 0,
    {
        classify_launch(self.session_id, self.as_user, self.show, outcome)
    }
}

/// The command line that runs `exe` with `args`.
pub fn command_line(exe: &str, args: &Vec<&str>) -> (r: String)
    ensures
        r@ == quoted_command(exe@, slices(args@)),
{
    let mut tail: Vec<char> = Vec::new();
    let mut i: usize = 0;
    assert(slices(args@).take(0) =~= Seq::<Seq<char>>::empty());
    while i < args.len()
        invariant
            i <= args.len(),
            tail@ == joined(slices(args@).take(i as int), " "@),
        decreases args.len() - i,
    {
        proof {
            let upto = slices(args@).take(i + 1);
            assert(upto.drop_last() =~= slices(args@).take(i as int));
            assert(upto.last() == args@[i as int]@);
            if i == 0 {
                assert(Seq::<char>::empty() + args@[0]@ =~= args@[0]@);
            }
        }
        if i > 0 {
            append_str(&mut tail, " ");
        }
        append_str(&mut tail, args[i]);
        i += 1;
    }
    assert(slices(args@).take(args.len() as int) =~= slices(args@));
    let mut line = chars_of("\"");
    append_str(&mut line, exe);
    append_str(&mut line, "\" ");
    crate::text::append(&mut line, &tail);
    string_of(&line)
}

/// The request to launch a command line in a session, under the identity of
/// the donor process and without a window.
pub fn launch_privileged_process(session_id: u32, cmd: &str) -> (r: LaunchRequest)
    ensures
        r.command_line@ == utf16_of(cmd@).push(0u16),
        r.session_id == session_id,
        !r.as_user,
        !r.show,
{
    LaunchRequest { command_line: wide_string(cmd), session_id, as_user: false, show: false }
}

/// The request to launch the interactive server in a session. None can be
/// made where the path of the executable is unknown.
pub fn launch_server(session_id: u32, exe: Option<&str>) -> (r: Result<LaunchRequest, LaunchError>)
    ensures
        match exe {
            Some(path) => r matches Ok(request) && request.command_line@ == utf16_of(
                server_command(path@),
            ).push(0u16) && request.session_id == session_id && !request.as_user
                && !request.show,
            None => r == Err::<LaunchRequest, LaunchError>(LaunchError::NoExecutablePath),
        },
{
    match exe {
        Some(path) => {
            let mut line = chars_of("\"");
            append_str(&mut line, path);
            append_str(&mut line, "\" --server");
            let cmd = string_of(&line);
            Ok(launch_privileged_process(session_id, cmd.as_str()))
        },
        None => Err(LaunchError::NoExecutablePath),
    }
}

/// The request to run an executable with arguments in a session, as the user
/// logged on to it.
pub fn run_exe_in_session(exe: &str, arg: Vec<&str>, session_id: u32, show: bool) -> (r:
    LaunchRequest)
    ensures
        r.command_line@ == utf16_of(quoted_command(exe@, slices(arg@))).push(0u16),
        r.session_id == session_id,
        r.as_user,
        r.show == show,
{
    let cmd = command_line(exe, &arg);
    LaunchRequest { command_line: wide_string(cmd.as_str()), session_id, as_user: true, show }
}

/// The request to run an executable in the session of the calling process.
/// None can be made where that session is unknown.
pub fn run_exe_in_cur_session(exe: &str, arg: Vec<&str>, show: bool, current: Option<u32>) -> (r:
    Result<LaunchRequest, LaunchError>)
    ensures
        match current {
            Some(session_id) => r matches Ok(request) && request.command_line@ == utf16_of(
                quoted_command(exe@, slices(arg@)),
            ).push(0u16) && request.session_id == session_id && request.as_user && request.show
                == show,
            None => r == Err::<LaunchRequest, LaunchError>(LaunchError::NoCurrentSession),
        },
{
    match current {
        Some(session_id) => Ok(run_exe_in_session(exe, arg, session_id, show)),
        None => Err(LaunchError::NoCurrentSession),
    }
}

/// The request to run the program itself with arguments in the session of
/// the calling process, as the user logged on to it and without a window.
pub fn run_as_user(exe: &str, arg: Vec<&str>, current: Option<u32>) -> (r: Result<
    LaunchRequest,
    LaunchError,
>)
    ensures
        match current {
            Some(session_id) => r matches Ok(request) && request.command_line@ == utf16_of(
                quoted_command(exe@, slices(arg@)),
            ).push(0u16) && request.session_id == session_id && request.as_user
                && !request.show,
            None => r == Err::<LaunchRequest, LaunchError>(LaunchError::NoCurrentSession),
        },
{
    run_exe_in_cur_session(exe, arg, false, current)
}

} // verus!
