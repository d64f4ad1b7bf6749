//! Vocabulary of the local control channel between the service and the
//! per-session server.

use vstd::prelude::*;

verus! {

/// Budget, in milliseconds, for reading one message from an accepted connection.
pub const MESSAGE_READ_MS: u64 = 1000;

/// Budget, in milliseconds, for connecting to a peer before a close is sent.
pub const CLOSE_CONNECT_MS: u64 = 1000;

/// Budget, in milliseconds, for asking the server how many port forwards are active.
pub const PORT_FORWARD_QUERY_MS: u64 = 1000;

/// Pause, in milliseconds, granted to a peer after a close was delivered.
pub const CLOSE_GRACE_MS: u64 = 100;

/// One unit of the control protocol.
#[derive(Clone, Copy, Debug, PartialEq, Eq, Structural)]
pub enum ControlMessage {
    /// Orderly shutdown of the receiving endpoint.
    Close,
    /// Inject a secure attention sequence.
    SAS,
    /// A session was bound to a user; `None` carries no binding.
    UserSid(Option<u32>),
    /// Any message that does not concern the lifecycle.
    Other,
}

impl ControlMessage {
    /// Whether the lifecycle logic reacts to the message at all.
    pub fn is_lifecycle(&self) -> (r: bool)
        ensures
            r == !(*self is Other),
    {
        match self {
            ControlMessage::Other => false,
            _ => true,
        }
    }
}

/// The two endpoints of the channel.
#[derive(Clone, Copy, Debug, PartialEq, Eq, Structural)]
pub enum Endpoint {
    /// The long-running privileged service.
    Service,
    /// The interactive server of one session.
    Server,
}

/// The suffix that, appended to the base name, names an endpoint.
pub open spec fn postfix_of(endpoint: Endpoint) -> Seq<char> {
    match endpoint {
        Endpoint::Service => "_service"@,
        Endpoint::Server => ""@,
    }
}

impl Endpoint {
    /// The suffix of this endpoint's channel name.
    pub fn postfix(&self) -> (r: &'static str)
        ensures
            r@ == postfix_of(*self),
    {
        match self {
            Endpoint::Service => "_service",
            Endpoint::Server => "",
        }
    }
}

/// The two endpoints never share a channel name.
pub proof fn endpoint_postfixes_differ()
    ensures
        postfix_of(Endpoint::Service) != postfix_of(Endpoint::Server),
{
    reveal_strlit("_service");
    reveal_strlit("");
    assert(postfix_of(Endpoint::Service).len() == 8);
    assert(postfix_of(Endpoint::Server).len() == 0);
}

/// The tag of a close.
pub const TAG_CLOSE: u8 = 0;

/// The tag of a secure attention sequence.
pub const TAG_SAS: u8 = 1;

/// The tag of a binding of a session.
pub const TAG_USER_SID: u8 = 2;

/// The tag of the question how many port forwards are active.
pub const TAG_COUNT_QUERY: u8 = 3;

/// The tag of the answer to that question.
pub const TAG_COUNT: u8 = 4;

/// The tag a message outside the lifecycle is sent with by this endpoint.
pub const TAG_OTHER: u8 = 255;

/// The four bytes of a number, the lowest first.
pub open spec fn le_bytes(n: u32) -> Seq<u8> {
    seq![
        (n % 256) as u8,
        (n / 256 % 256) as u8,
        (n / 65536 % 256) as u8,
        (n / 16777216) as u8,
    ]
}

/// The number that four bytes write, the lowest first.
pub open spec fn le_value(b0: u8, b1: u8, b2: u8, b3: u8) -> u32 {
    (b0 + b1 * 256 + b2 * 65536 + b3 * 16777216) as u32
}

/// The frame of a message: its tag, and for a binding whether a session is
/// bound and the session in four bytes.
pub open spec fn frame_of(message: ControlMessage) -> Seq<u8> {
    match message {
        ControlMessage::Close => seq![TAG_CLOSE],
        ControlMessage::SAS => seq![TAG_SAS],
        ControlMessage::UserSid(None) => seq![TAG_USER_SID, 0u8],
        ControlMessage::UserSid(Some(sid)) => seq![TAG_USER_SID, 1u8] + le_bytes(sid),
        ControlMessage::Other => seq![TAG_OTHER],
    }
}

/// The message a frame carries. A frame that is not exactly the frame of a
/// close, of a secure attention sequence or of a binding carries a message
/// outside the lifecycle, whatever its tag and length.
pub open spec fn message_of(frame: Seq<u8>) -> ControlMessage {
    if frame.len() == 1 && frame[0] == TAG_CLOSE {
        ControlMessage::Close
    } else if frame.len() == 1 && frame[0] == TAG_SAS {
        ControlMessage::SAS
    } else if frame.len() == 2 && frame[0] == TAG_USER_SID && frame[1] == 0 {
        ControlMessage::UserSid(None)
    } else if frame.len() == 6 && frame[0] == TAG_USER_SID && frame[1] == 1 {
        ControlMessage::UserSid(Some(le_value(frame[2], frame[3], frame[4], frame[5])))
    } else {
        ControlMessage::Other
    }
}

fn push_le(frame: &mut Vec<u8>, n: u32)
    ensures
        final(frame)@ == old(frame)@ + le_bytes(n),
{
    frame.push((n % 256) as u8);
    frame.push((n / 256 % 256) as u8);
    frame.push((n / 65536 % 256) as u8);
    frame.push((n / 16777216) as u8);
    assert(frame@ =~= old(frame)@ + le_bytes(n));
}

fn read_le(b0: u8, b1: u8, b2: u8, b3: u8) -> (r: u32)
    ensures
        r == le_value(b0, b1, b2, b3),
{
    (b0 as u32) + (b1 as u32) * 256 + (b2 as u32) * 65536 + (b3 as u32) * 16777216
}

/// Writes a message as a frame.
pub fn encode(message: ControlMessage) -> (r: Vec<u8>)
    ensures
        r@ == frame_of(message),
{
    let mut frame: Vec<u8> = Vec::new();
    match message {
        ControlMessage::Close => {
            frame.push(TAG_CLOSE);
        },
        ControlMessage::SAS => {
            frame.push(TAG_SAS);
        },
        ControlMessage::UserSid(None) => {
            frame.push(TAG_USER_SID);
            frame.push(0);
        },
        ControlMessage::UserSid(Some(sid)) => {
            frame.push(TAG_USER_SID);
            frame.push(1);
            push_le(&mut frame, sid);
        },
        ControlMessage::Other => {
            frame.push(TAG_OTHER);
        },
    }
    assert(frame@ =~= frame_of(message));
    frame
}

/// Reads the message a frame carries. No frame is refused.
pub fn decode(frame: &Vec<u8>) -> (r: ControlMessage)
    ensures
        r == message_of(frame@),
{
    if frame.len() == 1 && frame[0] == TAG_CLOSE {
        ControlMessage::Close
    } else if frame.len() == 1 && frame[0] == TAG_SAS {
        ControlMessage::SAS
    } else if frame.len() == 2 && frame[0] == TAG_USER_SID && frame[1] == 0 {
        ControlMessage::UserSid(None)
    } else if frame.len() == 6 && frame[0] == TAG_USER_SID && frame[1] == 1 {
        ControlMessage::UserSid(Some(read_le(frame[2], frame[3], frame[4], frame[5])))
    } else {
        ControlMessage::Other
    }
}

/// A message that is written and read again is the message it was.
pub proof fn frames_round_trip(message: ControlMessage)
    ensures
        message_of(frame_of(message)) == message,
{
    match message {
        ControlMessage::UserSid(Some(sid)) => {
            let frame = frame_of(message);
            assert(frame.len() == 6);
            assert(frame[0] == TAG_USER_SID && frame[1] == 1);
            assert(frame[2] == le_bytes(sid)[0] && frame[3] == le_bytes(sid)[1] && frame[4]
                == le_bytes(sid)[2] && frame[5] == le_bytes(sid)[3]);
            assert(le_value(frame[2], frame[3], frame[4], frame[5]) == sid);
        },
        _ => {},
    }
}

/// A frame with a tag this endpoint does not know carries a message outside
/// the lifecycle; it is never a close, a secure attention sequence or a binding.
pub proof fn unknown_tags_are_ignored(frame: Seq<u8>)
    requires
        frame.len() == 0 || frame[0] > TAG_USER_SID,
    ensures
        message_of(frame) == ControlMessage::Other,
{
}

/// The frame that asks how many port forwards are active.
pub fn port_forward_query() -> (r: Vec<u8>)
    ensures
        r@ == seq![TAG_COUNT_QUERY],
        message_of(r@) == ControlMessage::Other,
{
    let mut frame: Vec<u8> = Vec::new();
    frame.push(TAG_COUNT_QUERY);
    frame
}

/// The frame that answers how many port forwards are active.
pub fn port_forward_reply(count: u32) -> (r: Vec<u8>)
    ensures
        r@ == seq![TAG_COUNT] + le_bytes(count),
{
    let mut frame: Vec<u8> = Vec::new();
    frame.push(TAG_COUNT);
    push_le(&mut frame, count);
    frame
}

/// The number of port forwards a reply tells, if the frame is such a reply.
pub open spec fn count_of(frame: Seq<u8>) -> Option<u32> {
    if frame.len() == 5 && frame[0] == TAG_COUNT {
        Some(le_value(frame[1], frame[2], frame[3], frame[4]))
    } else {
        None
    }
}

/// Reads the number of port forwards from a reply.
pub fn port_forward_count(frame: &Vec<u8>) -> (r: Option<u32>)
    ensures
        r == count_of(frame@),
{
    if frame.len() == 5 && frame[0] == TAG_COUNT {
        Some(read_le(frame[1], frame[2], frame[3], frame[4]))
    } else {
        None
    }
}

/// The count that is written into a reply is the count that is read from it.
pub proof fn counts_round_trip(count: u32)
    ensures
        count_of(seq![TAG_COUNT] + le_bytes(count)) == Some(count),
{
    let frame = seq![TAG_COUNT] + le_bytes(count);
    assert(frame.len() == 5);
    assert(frame[0] == TAG_COUNT);
    assert(frame[1] == le_bytes(count)[0] && frame[2] == le_bytes(count)[1] && frame[3]
        == le_bytes(count)[2] && frame[4] == le_bytes(count)[3]);
}

} // verus!
