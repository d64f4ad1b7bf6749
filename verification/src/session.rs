//! The registry of interactive sessions: what the operating system answered
//! is turned into an ordered list of descriptors, the physical console first,
//! every session once.

use crate::service::NO_SESSION;
use crate::text::{
    append, append_str, chars_of, decimal, decimal_text, equal, parse_u32, parsed_u32, slice, split,
    split_on, string_of, texts, trim, trim_matches, trimmed, trimmed_of,
};
use vstd::prelude::*;

verus! {

/// The user logged on to a session.
#[derive(Debug)]
pub struct SessionUser {
    pub sid: u32,
    pub name: String,
}

/// The answers of the operating system that a listing is made from.
#[derive(Debug)]
pub struct SessionSnapshot {
    /// The enumeration of window stations: `station:id` entries separated by
    /// commas, as the enumeration wrote them.
    pub stations: String,
    /// The session of the physical console; `NO_SESSION` when there is none.
    pub physical_console: u32,
    /// The users that could be resolved. A session without an entry has no user.
    pub users: Vec<SessionUser>,
    /// The session of the calling process, where it could be determined.
    pub current: Option<u32>,
}

/// One interactive session.
#[derive(Debug, PartialEq, Eq)]
pub struct WindowsSession {
    pub sid: u32,
    /// The name to show; `None` where names were not asked for.
    pub name: Option<String>,
    pub is_physical_console: bool,
    /// Whether the calling process runs in this session.
    pub is_current: bool,
}

/// A snapshot as the specification sees it.
pub ghost struct SnapshotView {
    pub stations: Seq<char>,
    pub physical_console: u32,
    pub users: Seq<(u32, Seq<char>)>,
    pub current: Option<u32>,
}

/// A session as the specification sees it.
pub ghost struct SessionView {
    pub sid: u32,
    pub name: Option<Seq<char>>,
    pub is_physical_console: bool,
    pub is_current: bool,
}

impl View for SessionUser {
    type V = (u32, Seq<char>);

    open spec fn view(&self) -> (u32, Seq<char>) {
        (self.sid, self.name@)
    }
}

impl View for SessionSnapshot {
    type V = SnapshotView;

    open spec fn view(&self) -> SnapshotView {
        SnapshotView {
            stations: self.stations@,
            physical_console: self.physical_console,
            users: Seq::new(self.users@.len(), |i: int| self.users@[i]@),
            current: self.current,
        }
    }
}

impl View for WindowsSession {
    type V = SessionView;

    open spec fn view(&self) -> SessionView {
        SessionView {
            sid: self.sid,
            name: match self.name {
                Some(n) => Some(n@),
                None => None,
            },
            is_physical_console: self.is_physical_console,
            is_current: self.is_current,
        }
    }
}

/// The sessions that a vector of descriptors stands for.
pub open spec fn session_views(sessions: Seq<WindowsSession>) -> Seq<SessionView> {
    Seq::new(sessions.len(), |i: int| sessions[i]@)
}

/// A session that was found, before it is named.
pub ghost struct Found {
    /// The window station the session was listed under; for the console, `Console`.
    pub station: Seq<char>,
    pub sid: u32,
    pub console: bool,
}

/// What one entry of the enumeration says: a station and a session id, if
/// the entry has exactly the two parts and the second is a number.
pub open spec fn entry_of(piece: Seq<char>) -> Option<(Seq<char>, u32)> {
    let parts = split_on(piece, ':');
    if parts.len() == 2 {
        match parsed_u32(parts[1]) {
            Some(sid) => Some((parts[0], sid)),
            None => None,
        }
    } else {
        None
    }
}

/// Whether a session id is among those found.
pub open spec fn has_sid(found: Seq<Found>, sid: u32) -> bool {
    exists|i: int| 0 <= i < found.len() && (#[trigger] found[i]).sid == sid
}

/// The sessions found once the entries of the enumeration are added to
/// `found`, each id the first time it is met.
pub open spec fn add_entries(found: Seq<Found>, pieces: Seq<Seq<char>>) -> Seq<Found>
    decreases pieces.len(),
{
    if pieces.len() == 0 {
        found
    } else {
        let before = add_entries(found, pieces.drop_last());
        match entry_of(pieces.last()) {
            Some((station, sid)) => if has_sid(before, sid) {
                before
            } else {
                before.push(Found { station, sid, console: false })
            },
            None => before,
        }
    }
}

/// The enumeration without the padding and white space around it.
pub open spec fn clean_stations(stations: Seq<char>) -> Seq<char> {
    trimmed(trimmed_of(stations, '\0'))
}

/// The sessions found: the physical console first, where there is one, then
/// the enumerated sessions in the order of the enumeration.
pub open spec fn found_sessions(snapshot: SnapshotView) -> Seq<Found> {
    let console = if snapshot.physical_console != NO_SESSION {
        seq![Found { station: "Console"@, sid: snapshot.physical_console, console: true }]
    } else {
        Seq::<Found>::empty()
    };
    add_entries(console, split_on(clean_stations(snapshot.stations), ','))
}

/// The user of a session: the first that is recorded for it, or none.
pub open spec fn username_of(users: Seq<(u32, Seq<char>)>, sid: u32) -> Seq<char>
    decreases users.len(),
{
    if users.len() == 0 {
        Seq::<char>::empty()
    } else if users[0].0 == sid {
        users[0].1
    } else {
        username_of(users.drop_first(), sid)
    }
}

/// The name of a session before names are told apart: the station, and the
/// user after a colon where there is one.
pub open spec fn base_name(station: Seq<char>, username: Seq<char>) -> Seq<char> {
    if username.len() == 0 {
        station
    } else {
        station + ": "@ + username
    }
}

/// The base names of the sessions found.
pub open spec fn base_names(found: Seq<Found>, users: Seq<(u32, Seq<char>)>) -> Seq<Seq<char>> {
    Seq::new(found.len(), |i: int| base_name(found[i].station, username_of(users, found[i].sid)))
}

/// Whether another session has the same base name as the `i`th.
pub open spec fn is_shared(names: Seq<Seq<char>>, i: int) -> bool {
    exists|j: int| 0 <= j < names.len() && j != i && #[trigger] names[j] == names[i]
}

/// The suffix that tells sessions of one name apart.
pub open spec fn sid_suffix(sid: u32) -> Seq<char> {
    " (sid = "@ + decimal(sid as nat) + ")"@
}

/// The name that is shown: the base name, with the session id where the base
/// name is shared, and with a marker where the caller runs in the session.
pub open spec fn display_name(base: Seq<char>, sid: u32, shared: bool, running: bool) -> Seq<
    char,
> {
    let told_apart = if shared {
        base + sid_suffix(sid)
    } else {
        base
    };
    if running {
        told_apart + " (running)"@
    } else {
        told_apart
    }
}

/// Whether the caller runs in session `sid`. Session 0 is never the caller's
/// interactive session, and an undetermined session matches none.
pub open spec fn runs_in(current: Option<u32>, sid: u32) -> bool {
    current == Some(sid) && sid != 0
}

/// The listing: one descriptor for every session found, named if names are
/// asked for.
pub open spec fn available_sessions(name: bool, snapshot: SnapshotView) -> Seq<SessionView> {
    let found = found_sessions(snapshot);
    let names = base_names(found, snapshot.users);
    Seq::new(
        found.len(),
        |i: int|
            SessionView {
                sid: found[i].sid,
                name: if name {
                    Some(
                        display_name(
                            names[i],
                            found[i].sid,
                            is_shared(names, i),
                            runs_in(snapshot.current, found[i].sid),
                        ),
                    )
                } else {
                    None
                },
                is_physical_console: found[i].console,
                is_current: runs_in(snapshot.current, found[i].sid),
            },
    )
}

struct Listed {
    station: Vec<char>,
    sid: u32,
    console: bool,
}

impl View for Listed {
    type V = Found;

    closed spec fn view(&self) -> Found {
        Found { station: self.station@, sid: self.sid, console: self.console }
    }
}

spec fn founds(listed: Seq<Listed>) -> Seq<Found> {
    Seq::new(listed.len(), |i: int| listed[i]@)
}

fn is_listed(listed: &Vec<Listed>, sid: u32) -> (r: bool)
    ensures
        r == has_sid(founds(listed@), sid),
{
    let mut i: usize = 0;
    while i < listed.len()
        invariant
            i <= listed.len(),
            forall|j: int| 0 <= j < i ==> (#[trigger] founds(listed@)[j]).sid != sid,
        decreases listed.len() - i,
    {
        if listed[i].sid == sid {
            assert(founds(listed@)[i as int].sid == sid);
            return true;
        }
        i += 1;
    }
    false
}

fn find_sessions(snapshot: &SessionSnapshot) -> (r: Vec<Listed>)
    ensures
        founds(r@) == found_sessions(snapshot@),
{
    let raw = chars_of(snapshot.stations.as_str());
    let unpadded = trim_matches(&raw, '\0');
    let clean = trim(&unpadded);
    let pieces = split(&clean, ',');
    let mut listed: Vec<Listed> = Vec::new();
    if snapshot.physical_console != NO_SESSION {
        listed.push(
            Listed {
                station: chars_of("Console"),
                sid: snapshot.physical_console,
                console: true,
            },
        );
        assert(founds(listed@) =~= seq![
            Found { station: "Console"@, sid: snapshot.physical_console, console: true },
        ]);
    } else {
        assert(founds(listed@) =~= Seq::<Found>::empty());
    }
    let ghost console = founds(listed@);
    let mut i: usize = 0;
    assert(texts(pieces@).take(0) =~= Seq::<Seq<char>>::empty());
    while i < pieces.len()
        invariant
            i <= pieces.len(),
            founds(listed@) == add_entries(console, texts(pieces@).take(i as int)),
        decreases pieces.len() - i,
    {
        proof {
            let upto = texts(pieces@).take(i + 1);
            assert(upto.drop_last() =~= texts(pieces@).take(i as int));
            assert(upto.last() == pieces@[i as int]@);
        }
        let parts = split(&pieces[i], ':');
        if parts.len() == 2 {
            assert(texts(parts@)[0] == parts@[0]@);
            assert(texts(parts@)[1] == parts@[1]@);
            match parse_u32(&parts[1]) {
                Some(sid) => {
                    if !is_listed(&listed, sid) {
                        let ghost before = listed@;
                        let station = slice(&parts[0], 0, parts[0].len());
                        assert(station@ =~= parts@[0]@);
                        listed.push(Listed { station, sid, console: false });
                        assert(founds(listed@) =~= founds(before).push(
                            Found { station: parts@[0]@, sid, console: false },
                        ));
                    }
                },
                None => {},
            }
        } else {
            assert(texts(parts@).len() != 2);
        }
        i += 1;
    }
    assert(texts(pieces@).take(pieces.len() as int) =~= texts(pieces@));
    listed
}

spec fn user_views(users: Seq<SessionUser>) -> Seq<(u32, Seq<char>)> {
    Seq::new(users.len(), |i: int| users[i]@)
}

fn lookup_user(users: &Vec<SessionUser>, sid: u32) -> (r: Vec<char>)
    ensures
        r@ == username_of(user_views(users@), sid),
{
    let ghost all = user_views(users@);
    let mut i: usize = 0;
    assert(all.skip(0) =~= all);
    while i < users.len()
        invariant
            i <= users.len(),
            all == user_views(users@),
            username_of(all, sid) == username_of(all.skip(i as int), sid),
        decreases users.len() - i,
    {
        assert(all.skip(i as int)[0] == users@[i as int]@);
        if users[i].sid == sid {
            return chars_of(users[i].name.as_str());
        }
        assert(all.skip(i as int).drop_first() =~= all.skip(i + 1));
        i += 1;
    }
    assert(all.skip(users.len() as int).len() == 0);
    Vec::new()
}

fn name_is_shared(names: &Vec<Vec<char>>, i: usize) -> (r: bool)
    requires
        i < names.len(),
    ensures
        r == is_shared(texts(names@), i as int),
{
    let mut j: usize = 0;
    while j < names.len()
        invariant
            j <= names.len(),
            i < names.len(),
            forall|k: int| 0 <= k < j && k != i ==> #[trigger] texts(names@)[k] != texts(names@)[i as int],
        decreases names.len() - j,
    {
        if j != i && equal(&names[j], &names[i]) {
            assert(texts(names@)[j as int] == texts(names@)[i as int]);
            return true;
        }
        j += 1;
    }
    false
}

fn caller_runs_in(current: Option<u32>, sid: u32) -> (r: bool)
    ensures
        r == runs_in(current, sid),
{
    match current {
        Some(c) => c == sid && sid != 0,
        None => false,
    }
}

fn shown_name(base: &Vec<char>, sid: u32, shared: bool, running: bool) -> (r: Vec<char>)
    ensures
        r@ == display_name(base@, sid, shared, running),
{
    let mut r = slice(base, 0, base.len());
    assert(r@ =~= base@);
    if shared {
        let digits = decimal_text(sid);
        append_str(&mut r, " (sid = ");
        append(&mut r, &digits);
        append_str(&mut r, ")");
        assert(r@ =~= base@ + sid_suffix(sid));
    }
    if running {
        append_str(&mut r, " (running)");
    }
    r
}

/// Lists the interactive sessions.
///
/// The physical console comes first, where there is one; the sessions of the
/// enumeration follow in its order, each id once. With `name`, every session
/// is named after its station and user, names that would be the same are told
/// apart by the session id, and the session of the caller is marked as
/// running; without it, no session has a name.
pub fn get_available_sessions(name: bool, snapshot: &SessionSnapshot) -> (r: Vec<WindowsSession>)
    ensures
        session_views(r@) == available_sessions(name, snapshot@),
{
    let listed = find_sessions(snapshot);
    let ghost found = found_sessions(snapshot@);
    let ghost users = snapshot@.users;
    let mut names: Vec<Vec<char>> = Vec::new();
    if name {
        let mut i: usize = 0;
        while i < listed.len()
            invariant
                i <= listed.len(),
                founds(listed@) == found,
                users == user_views(snapshot.users@),
                names@.len() == i,
                forall|j: int|
                    0 <= j < i ==> #[trigger] names@[j]@ == base_name(
                        found[j].station,
                        username_of(users, found[j].sid),
                    ),
            decreases listed.len() - i,
        {
            assert(founds(listed@)[i as int] == listed@[i as int]@);
            let user = lookup_user(&snapshot.users, listed[i].sid);
            let mut base = slice(&listed[i].station, 0, listed[i].station.len());
            assert(base@ =~= listed@[i as int].station@);
            if user.len() != 0 {
                append_str(&mut base, ": ");
                append(&mut base, &user);
            }
            names.push(base);
            i += 1;
        }
        assert(texts(names@) =~= base_names(found, users));
    }
    let mut sessions: Vec<WindowsSession> = Vec::new();
    let mut i: usize = 0;
    while i < listed.len()
        invariant
            i <= listed.len(),
            founds(listed@) == found,
            found == found_sessions(snapshot@),
            users == snapshot@.users,
            name ==> texts(names@) == base_names(found, users),
            name ==> names@.len() == listed@.len(),
            sessions@.len() == i,
            forall|j: int|
                0 <= j < i ==> #[trigger] sessions@[j]@ == available_sessions(name, snapshot@)[j],
        decreases listed.len() - i,
    {
        assert(founds(listed@)[i as int] == listed@[i as int]@);
        let sid = listed[i].sid;
        let running = caller_runs_in(snapshot.current, sid);
        let shown = if name {
            assert(texts(names@)[i as int] == names@[i as int]@);
            let shared = name_is_shared(&names, i);
            Some(string_of(&shown_name(&names[i], sid, shared, running)))
        } else {
            None
        };
        sessions.push(
            WindowsSession {
                sid,
                name: shown,
                is_physical_console: listed[i].console,
                is_current: running,
            },
        );
        i += 1;
    }
    assert(session_views(sessions@) =~= available_sessions(name, snapshot@));
    sessions
}

/// The ids of the sessions of a listing, in its order.
pub fn session_ids(sessions: &Vec<WindowsSession>) -> (r: Vec<u32>)
    ensures
        r@.len() == sessions@.len(),
        forall|i: int| 0 <= i < r@.len() ==> r@[i] == sessions@[i].sid,
{
    let mut r: Vec<u32> = Vec::new();
    let mut i: usize = 0;
    while i < sessions.len()
        invariant
            i <= sessions.len(),
            r@.len() == i,
            forall|j: int| 0 <= j < i ==> r@[j] == sessions@[j].sid,
        decreases sessions.len() - i,
    {
        r.push(sessions[i].sid);
        i += 1;
    }
    r
}

/// Whether the calling process runs in the session of the physical console.
/// Nothing can be said where either session is unknown.
pub fn is_physical_console_session(current: Option<u32>, physical_console: u32) -> (r: Option<
    bool,
>)
    ensures
        r == match current {
            Some(sid) => if physical_console == NO_SESSION {
                None
            } else {
                Some(physical_console == sid)
            },
            None => None,
        },
{
    match current {
        Some(sid) => {
            if physical_console == NO_SESSION {
                None
            } else {
                Some(physical_console == sid)
            }
        },
        None => None,
    }
}

} // verus!
