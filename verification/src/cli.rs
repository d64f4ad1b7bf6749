//! The headless side of the login handshake: an implementation of the
//! capability set that needs no window, and the decisions of the command line.

use crate::session::WindowsSession;
use crate::text::{append_str, chars_of, contains, contains_text, string_of};
use vstd::prelude::*;

verus! {

/// The severities of a log record.
#[derive(Clone, Copy, Debug, PartialEq, Eq, Structural)]
pub enum LogLevel {
    Error,
    Warn,
    Info,
    Debug,
    Trace,
}

/// What is to be written to the log.
#[derive(Debug, PartialEq, Eq)]
pub struct LogRecord {
    pub level: LogLevel,
    pub message: String,
}

/// The credentials and options of one connection.
#[derive(Clone, Debug, PartialEq, Eq)]
pub struct LoginConfigHandler {
    /// The id of the peer.
    pub id: String,
    /// The password last given for the peer.
    pub password: Vec<u8>,
    /// Whether the password is to be remembered.
    pub remember: bool,
}

impl Default for LoginConfigHandler {
    /// The handler of a connection of which nothing is known yet.
    fn default() -> (r: Self)
        ensures
            r.id@.len() == 0,
            r.password@.len() == 0,
            !r.remember,
    {
        LoginConfigHandler { id: String::new(), password: Vec::new(), remember: false }
    }
}

/// An established duplex byte stream, as far as the handshake is concerned.
#[derive(Debug, PartialEq, Eq)]
pub struct Stream {
    /// Whether the stream is open.
    pub open: bool,
    /// The messages handed to the stream, oldest first.
    pub outbox: Vec<Vec<u8>>,
}

/// A command for the connection.
#[derive(Debug, PartialEq, Eq)]
pub struct Data {
    pub bytes: Vec<u8>,
}

/// The challenge of the peer that a password is hashed against.
#[derive(Debug, PartialEq, Eq)]
pub struct Hash {
    pub salt: String,
    pub challenge: String,
}

/// What the peer tells of itself once the login has passed.
#[derive(Debug, PartialEq, Eq)]
pub struct PeerInfo {
    pub username: String,
    pub hostname: String,
    pub platform: String,
}

/// A probe of the round-trip time.
#[derive(Clone, Copy, Debug, PartialEq, Eq, Structural)]
pub struct TestDelay {
    pub time: i64,
    pub from_client: bool,
    pub last_delay: u32,
    pub target_bitrate: u32,
}

/// The capability set that drives a login handshake. Whoever implements it
/// is lent the stream for one step of the handshake and gives it back open if
/// it was open.
pub trait Interface {
    /// Takes in the sessions the peer offers to choose from.
    fn set_multiple_windows_session(&self, sessions: Vec<WindowsSession>);

    /// The credentials and options of the connection.
    fn get_lch(&self) -> &LoginConfigHandler;

    /// Hands a command to the connection.
    fn send(&self, data: Data);

    /// Shows a message to whoever is there to see it; answers with what is logged.
    fn msgbox(&self, msgtype: &str, title: &str, text: &str, link: &str) -> LogRecord;

    /// Tells whether a login error was dealt with here.
    fn handle_login_error(&self, err: &str) -> bool;

    /// Takes in what the peer tells of itself.
    fn handle_peer_info(&self, pi: PeerInfo);

    /// Answers the challenge of the peer.
    fn handle_hash(&self, pass: &str, hash: Hash, peer: &mut Stream)
        ensures
            old(peer).open ==> final(peer).open,
    ;

    /// Submits the credentials that were entered.
    fn handle_login_from_ui(
        &self,
        os_username: String,
        os_password: String,
        password: String,
        remember: bool,
        peer: &mut Stream,
    )
        ensures
            old(peer).open ==> final(peer).open,
    ;

    /// Answers a probe of the round-trip time.
    fn handle_test_delay(&self, t: TestDelay, peer: &mut Stream)
        ensures
            old(peer).open ==> final(peer).open,
    ;
}

/// The capability set without a window: messages go to the log, login errors
/// are left to the caller, and the steps of the handshake do nothing.
#[derive(Clone, Debug)]
pub struct Session {
    lch: LoginConfigHandler,
}

/// The severity a message of a given kind is logged with.
pub open spec fn severity_of(msgtype: Seq<char>) -> LogLevel {
    if contains_text(msgtype, "error"@) {
        LogLevel::Error
    } else {
        LogLevel::Info
    }
}

impl Session {
    /// The handler of the connection.
    pub closed spec fn config(&self) -> LoginConfigHandler {
        self.lch
    }

    /// A session over the given handler.
    pub fn new(lch: LoginConfigHandler) -> (r: Self)
        ensures
            r.config() == lch,
    {
        Self { lch }
    }
}

impl Interface for Session {
    fn set_multiple_windows_session(&self, sessions: Vec<WindowsSession>) {
    }

    fn get_lch(&self) -> (r: &LoginConfigHandler)
        ensures
            *r == self.config(),
    {
        &self.lch
    }

    fn send(&self, data: Data) {
    }

    /// A message whose kind contains `error` is logged as an error, any other
    /// as information; the text logged is the title, a colon and the text.
    fn msgbox(&self, msgtype: &str, title: &str, text: &str, link: &str) -> (r: LogRecord)
        ensures
            r.level == severity_of(msgtype@),
            r.message@ == title@ + ": "@ + text@,
    {
        let kind = chars_of(msgtype);
        let level = if contains(&kind, &chars_of("error")) {
            LogLevel::Error
        } else {
            LogLevel::Info
        };
        let mut message = chars_of(title);
        append_str(&mut message, ": ");
        append_str(&mut message, text);
        LogRecord { level, message: string_of(&message) }
    }

    /// No login error is dealt with here: the caller has to fall back.
    fn handle_login_error(&self, err: &str) -> (r: bool)
        ensures
            !r,
    {
        false
    }

    fn handle_peer_info(&self, pi: PeerInfo) {
    }

    /// Completes at once; the stream is left as it was.
    fn handle_hash(&self, pass: &str, hash: Hash, peer: &mut Stream)
        ensures
            *final(peer) == *old(peer),
    {
    }

    /// Completes at once; the stream is left as it was.
    fn handle_login_from_ui(
        &self,
        os_username: String,
        os_password: String,
        password: String,
        remember: bool,
        peer: &mut Stream,
    )
        ensures
            *final(peer) == *old(peer),
    {
    }

    /// Completes at once; the stream is left as it was.
    fn handle_test_delay(&self, t: TestDelay, peer: &mut Stream)
        ensures
            *final(peer) == *old(peer),
    {
    }
}

/// What was given on the command line.
#[derive(Debug, PartialEq, Eq)]
pub struct CliArgs {
    /// `remote-id:local-port:remote-port[:remote-host]`
    pub port_forward: Option<String>,
    /// The id to connect to.
    pub connect: Option<String>,
    /// The key that goes with a connection.
    pub key: Option<String>,
    /// Whether server mode was asked for.
    pub server: bool,
    /// How often the verbosity flag was given.
    pub verbose: u8,
}

/// What the command line asks for.
#[derive(Debug, PartialEq, Eq)]
pub enum CliAction {
    PortForward(String),
    Connect { id: String, key: String },
    Server,
    Help,
}

/// What is done for a command line.
#[derive(Debug, PartialEq, Eq)]
pub struct CliPlan {
    /// The level the log is set to where the environment names none.
    pub log_level: LogLevel,
    pub action: CliAction,
    pub exit_code: i32,
}

/// The log level a number of verbosity flags stands for.
pub open spec fn verbosity_level(verbose: u8) -> LogLevel {
    if verbose == 0 {
        LogLevel::Info
    } else if verbose == 1 {
        LogLevel::Debug
    } else {
        LogLevel::Trace
    }
}

/// The characters of an optional text; none where it is absent.
pub open spec fn text_or_empty(text: Option<String>) -> Seq<char> {
    match text {
        Some(t) => t@,
        None => Seq::<char>::empty(),
    }
}

/// Whether a plan's action is the one the arguments ask for: a port forward
/// goes before a connection, a connection before server mode, and without
/// any of them help is shown.
pub open spec fn action_matches(args: CliArgs, action: CliAction) -> bool {
    match args.port_forward {
        Some(spec) => action matches CliAction::PortForward(s) && s@ == spec@,
        None => match args.connect {
            Some(peer) => action matches CliAction::Connect { id, key } && id@ == peer@ && key@
                == text_or_empty(args.key),
            None => if args.server {
                action is Server
            } else {
                action is Help
            },
        },
    }
}

/// Decides what a command line leads to. The exit code is zero whatever was
/// asked for.
pub fn cli_entry(args: CliArgs) -> (r: CliPlan)
    ensures
        r.log_level == verbosity_level(args.verbose),
        action_matches(args, r.action),
        r.exit_code == 0,
{
    let log_level = if args.verbose == 0 {
        LogLevel::Info
    } else if args.verbose == 1 {
        LogLevel::Debug
    } else {
        LogLevel::Trace
    };
    let action = match args.port_forward {
        Some(spec) => CliAction::PortForward(spec),
        None => match args.connect {
            Some(peer) => {
                let key = match args.key {
                    Some(k) => k,
                    None => String::new(),
                };
                CliAction::Connect { id: peer, key }
            },
            None => if args.server {
                CliAction::Server
            } else {
                CliAction::Help
            },
        },
    };
    CliPlan { log_level, action, exit_code: 0 }
}

} // verus!
