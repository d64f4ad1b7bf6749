//! What holds of every listing of sessions.

use crate::service::NO_SESSION;
use crate::session::{
    add_entries, available_sessions, base_names, clean_stations, display_name, entry_of,
    found_sessions, has_sid, is_shared, runs_in, sid_suffix, Found, SnapshotView,
};
use crate::text::{
    all_digits, contains_text, decimal, decimal_is_injective, decimal_writes_its_number,
    has_suffix, is_digit, occurs_at, split_on,
};
use vstd::prelude::*;

verus! {

/// No two of the sessions found have the same id.
pub open spec fn distinct_sids(found: Seq<Found>) -> bool {
    forall|i: int, j: int| 0 <= i < j < found.len() ==> found[i].sid != found[j].sid
}

/// Adding the entries of an enumeration keeps what was found before in its
/// place, adds no console, and never adds an id a second time.
pub proof fn add_entries_extends(found: Seq<Found>, pieces: Seq<Seq<char>>)
    requires
        distinct_sids(found),
    ensures
        add_entries(found, pieces).len() >= found.len(),
        forall|i: int| 0 <= i < found.len() ==> add_entries(found, pieces)[i] == found[i],
        forall|i: int|
            found.len() <= i < add_entries(found, pieces).len() ==> !add_entries(
                found,
                pieces,
            )[i].console,
        distinct_sids(add_entries(found, pieces)),
    decreases pieces.len(),
{
    if pieces.len() > 0 {
        add_entries_extends(found, pieces.drop_last());
        let before = add_entries(found, pieces.drop_last());
        match entry_of(pieces.last()) {
            Some((station, sid)) => {
                if !has_sid(before, sid) {
                    assert forall|i: int| 0 <= i < before.len() implies before[i].sid != sid by {
                        if before[i].sid == sid {
                            assert(has_sid(before, sid));
                        }
                    }
                }
            },
            None => {},
        }
    }
}

/// Every entry of the enumeration that names a session has that session listed.
pub proof fn add_entries_is_complete(found: Seq<Found>, pieces: Seq<Seq<char>>, k: int)
    requires
        0 <= k < pieces.len(),
        entry_of(pieces[k]) is Some,
    ensures
        has_sid(add_entries(found, pieces), entry_of(pieces[k]).unwrap().1),
    decreases pieces.len(),
{
    let sid = entry_of(pieces[k]).unwrap().1;
    let before = add_entries(found, pieces.drop_last());
    let all = add_entries(found, pieces);
    if k == pieces.len() - 1 {
        if !has_sid(before, sid) {
            assert(all[all.len() - 1].sid == sid);
        } else {
            assert(all == before);
        }
    } else {
        assert(pieces.drop_last()[k] == pieces[k]);
        add_entries_is_complete(found, pieces.drop_last(), k);
        let i = choose|i: int| 0 <= i < before.len() && (#[trigger] before[i]).sid == sid;
        match entry_of(pieces.last()) {
            Some((station, other)) => {
                if has_sid(before, other) {
                    assert(all == before);
                } else {
                    assert(all[i] == before[i]);
                }
            },
            None => {},
        }
        assert(all[i].sid == sid);
    }
}

/// A listing has one descriptor for each session found, in the same order.
pub proof fn listing_follows_what_was_found(name: bool, snapshot: SnapshotView)
    ensures
        available_sessions(name, snapshot).len() == found_sessions(snapshot).len(),
        forall|i: int|
            0 <= i < found_sessions(snapshot).len() ==> {
                &&& (#[trigger] available_sessions(name, snapshot)[i]).sid == found_sessions(
                    snapshot,
                )[i].sid
                &&& available_sessions(name, snapshot)[i].is_physical_console == found_sessions(
                    snapshot,
                )[i].console
            },
{
}

/// No session id occurs twice in a listing.
pub proof fn every_session_is_listed_once(name: bool, snapshot: SnapshotView)
    ensures
        forall|i: int, j: int|
            0 <= i < j < available_sessions(name, snapshot).len() ==> available_sessions(
                name,
                snapshot,
            )[i].sid != available_sessions(name, snapshot)[j].sid,
{
    let console = if snapshot.physical_console != NO_SESSION {
        seq![Found { station: "Console"@, sid: snapshot.physical_console, console: true }]
    } else {
        Seq::<Found>::empty()
    };
    add_entries_extends(console, split_on(clean_stations(snapshot.stations), ','));
}

/// Where there is a physical console, its session is the first of the
/// listing and is marked as the console, and no other descriptor has its id or
/// its mark, whether or not the enumeration lists that session too.
pub proof fn the_console_is_listed_once_and_first(name: bool, snapshot: SnapshotView)
    requires
        snapshot.physical_console != NO_SESSION,
    ensures
        available_sessions(name, snapshot).len() >= 1,
        available_sessions(name, snapshot)[0].sid == snapshot.physical_console,
        available_sessions(name, snapshot)[0].is_physical_console,
        forall|i: int|
            1 <= i < available_sessions(name, snapshot).len() ==> {
                &&& (#[trigger] available_sessions(name, snapshot)[i]).sid
                    != snapshot.physical_console
                &&& !available_sessions(name, snapshot)[i].is_physical_console
            },
{
    let console = seq![
        Found { station: "Console"@, sid: snapshot.physical_console, console: true },
    ];
    add_entries_extends(console, split_on(clean_stations(snapshot.stations), ','));
    let found = found_sessions(snapshot);
    assert(found[0] == console[0]);
}

/// Without a physical console no descriptor is marked as the console.
pub proof fn no_console_without_a_console_session(name: bool, snapshot: SnapshotView)
    requires
        snapshot.physical_console == NO_SESSION,
    ensures
        forall|i: int|
            0 <= i < available_sessions(name, snapshot).len() ==> !(#[trigger] available_sessions(
                name,
                snapshot,
            )[i]).is_physical_console,
{
    add_entries_extends(Seq::<Found>::empty(), split_on(clean_stations(snapshot.stations), ','));
}

/// Every entry of the enumeration that names a session has that session in
/// the listing.
pub proof fn every_entry_is_listed(name: bool, snapshot: SnapshotView, k: int)
    requires
        0 <= k < split_on(clean_stations(snapshot.stations), ',').len(),
        entry_of(split_on(clean_stations(snapshot.stations), ',')[k]) is Some,
    ensures
        exists|i: int|
            0 <= i < available_sessions(name, snapshot).len() && (#[trigger] available_sessions(
                name,
                snapshot,
            )[i]).sid == entry_of(split_on(clean_stations(snapshot.stations), ',')[k]).unwrap().1,
{
    let pieces = split_on(clean_stations(snapshot.stations), ',');
    let console = if snapshot.physical_console != NO_SESSION {
        seq![Found { station: "Console"@, sid: snapshot.physical_console, console: true }]
    } else {
        Seq::<Found>::empty()
    };
    add_entries_is_complete(console, pieces, k);
    let found = found_sessions(snapshot);
    let sid = entry_of(pieces[k]).unwrap().1;
    let i = choose|i: int| 0 <= i < found.len() && (#[trigger] found[i]).sid == sid;
    assert(available_sessions(name, snapshot)[i].sid == sid);
}

/// When the system names no console and the enumeration is empty, nothing
/// is listed.
pub proof fn nothing_is_listed_without_answers(name: bool, snapshot: SnapshotView)
    requires
        snapshot.physical_console == NO_SESSION,
        clean_stations(snapshot.stations).len() == 0,
    ensures
        available_sessions(name, snapshot).len() == 0,
{
    let clean = clean_stations(snapshot.stations);
    let pieces = split_on(clean, ',');
    assert(pieces =~= seq![Seq::<char>::empty()]);
    assert(split_on(pieces[0], ':') =~= seq![Seq::<char>::empty()]);
    assert(entry_of(pieces.last()) is None);
    assert(pieces.drop_last().len() == 0);
    assert(add_entries(Seq::<Found>::empty(), pieces.drop_last()) == Seq::<Found>::empty());
    assert(add_entries(Seq::<Found>::empty(), pieces) =~= Seq::<Found>::empty());
}

/// Names are given exactly when they are asked for.
pub proof fn names_are_given_when_asked_for(name: bool, snapshot: SnapshotView)
    ensures
        forall|i: int|
            0 <= i < available_sessions(name, snapshot).len() ==> ((#[trigger] available_sessions(
                name,
                snapshot,
            )[i]).name is Some <==> name),
{
}

/// A name that is told apart ends with the session id, and with the running
/// marker after it where the caller runs in the session.
pub proof fn display_name_shows_its_marks(base: Seq<char>, sid: u32, shared: bool, running: bool)
    ensures
        shared ==> contains_text(display_name(base, sid, shared, running), sid_suffix(sid)),
        shared && !running ==> has_suffix(display_name(base, sid, shared, running), sid_suffix(sid)),
        running ==> has_suffix(display_name(base, sid, shared, running), " (running)"@),
        !shared && !running ==> display_name(base, sid, shared, running) == base,
{
    let shown = display_name(base, sid, shared, running);
    if shared {
        assert(occurs_at(shown, sid_suffix(sid), base.len() as int));
    }
    if running {
        let marker = " (running)"@;
        assert(occurs_at(shown, marker, shown.len() - marker.len()));
    }
}

/// In a listing with names, every session whose name another session would
/// share carries its session id in its name, and the session of the caller
/// carries the running marker at the end of its name.
pub proof fn shared_names_are_told_apart(snapshot: SnapshotView, i: int, j: int)
    requires
        0 <= i < available_sessions(true, snapshot).len(),
        0 <= j < available_sessions(true, snapshot).len(),
        i != j,
        base_names(found_sessions(snapshot), snapshot.users)[i] == base_names(
            found_sessions(snapshot),
            snapshot.users,
        )[j],
    ensures
        available_sessions(true, snapshot)[i].name is Some,
        contains_text(
            available_sessions(true, snapshot)[i].name.unwrap(),
            sid_suffix(available_sessions(true, snapshot)[i].sid),
        ),
        available_sessions(true, snapshot)[i].is_current ==> has_suffix(
            available_sessions(true, snapshot)[i].name.unwrap(),
            " (running)"@,
        ),
{
    let found = found_sessions(snapshot);
    let names = base_names(found, snapshot.users);
    assert(is_shared(names, i)) by {
        assert(names[j] == names[i]);
    }
    display_name_shows_its_marks(
        names[i],
        found[i].sid,
        true,
        runs_in(snapshot.current, found[i].sid),
    );
}

/// In a listing with names, the session the caller runs in is marked as
/// current and its name ends with the running marker; no other session is.
pub proof fn the_session_of_the_caller_is_marked(snapshot: SnapshotView, i: int)
    requires
        0 <= i < available_sessions(true, snapshot).len(),
    ensures
        available_sessions(true, snapshot)[i].is_current <==> (snapshot.current == Some(
            available_sessions(true, snapshot)[i].sid,
        ) && available_sessions(true, snapshot)[i].sid != 0),
        available_sessions(true, snapshot)[i].is_current ==> has_suffix(
            available_sessions(true, snapshot)[i].name.unwrap(),
            " (running)"@,
        ),
{
    let found = found_sessions(snapshot);
    let names = base_names(found, snapshot.users);
    display_name_shows_its_marks(
        names[i],
        found[i].sid,
        is_shared(names, i),
        runs_in(snapshot.current, found[i].sid),
    );
}

/// Two names that are told apart by different session ids are different
/// names, whatever else they carry.
pub proof fn told_apart_names_differ(
    base: Seq<char>,
    a: u32,
    b: u32,
    a_running: bool,
    b_running: bool,
)
    requires
        a != b,
    ensures
        display_name(base, a, true, a_running) != display_name(base, b, true, b_running),
{
    let one = display_name(base, a, true, a_running);
    let two = display_name(base, b, true, b_running);
    let da = decimal(a as nat);
    let db = decimal(b as nat);
    reveal_strlit(" (sid = ");
    reveal_strlit(")");
    reveal_strlit(" (running)");
    decimal_writes_its_number(a as nat);
    decimal_writes_its_number(b as nat);
    let p: int = base.len() as int + 8;
    let la: int = da.len() as int;
    let lb: int = db.len() as int;
    assert forall|i: int| 0 <= i < da.len() implies one[p + i] == da[i] by {}
    assert forall|i: int| 0 <= i < db.len() implies two[p + i] == db[i] by {}
    assert(one[p + la] == ')');
    assert(two[p + lb] == ')');
    if one == two {
        if da.len() == db.len() {
            assert forall|i: int| 0 <= i < da.len() implies da[i] == db[i] by {
                assert(one[p + i] == two[p + i]);
            }
            assert(da =~= db);
            decimal_is_injective(a as nat, b as nat);
        } else if da.len() < db.len() {
            assert(two[p + la] == db[la]);
            assert(is_digit(db[la]));
        } else {
            assert(one[p + lb] == da[lb]);
            assert(is_digit(da[lb]));
        }
    }
}

/// In a listing with names, two sessions that would have the same name are
/// shown under different names.
pub proof fn shared_names_are_shown_differently(snapshot: SnapshotView, i: int, j: int)
    requires
        0 <= i < j < available_sessions(true, snapshot).len(),
        base_names(found_sessions(snapshot), snapshot.users)[i] == base_names(
            found_sessions(snapshot),
            snapshot.users,
        )[j],
    ensures
        available_sessions(true, snapshot)[i].name != available_sessions(true, snapshot)[j].name,
{
    let found = found_sessions(snapshot);
    let names = base_names(found, snapshot.users);
    every_session_is_listed_once(true, snapshot);
    assert(available_sessions(true, snapshot)[i].sid != available_sessions(true, snapshot)[j].sid);
    assert(is_shared(names, i)) by {
        assert(names[j] == names[i]);
    }
    assert(is_shared(names, j)) by {
        assert(names[i] == names[j]);
    }
    told_apart_names_differ(
        names[i],
        found[i].sid,
        found[j].sid,
        runs_in(snapshot.current, found[i].sid),
        runs_in(snapshot.current, found[j].sid),
    );
}

} // verus!
