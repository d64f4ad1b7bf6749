use probationdesk::service::NO_SESSION;
use probationdesk::session::{
    get_available_sessions, is_physical_console_session, session_ids, SessionSnapshot,
    SessionUser, WindowsSession,
};

fn snapshot(stations: &str, console: u32, users: &[(u32, &str)], current: Option<u32>) -> SessionSnapshot {
    SessionSnapshot {
        stations: stations.to_string(),
        physical_console: console,
        users: users.iter().map(|(sid, name)| SessionUser { sid: *sid, name: name.to_string() }).collect(),
        current,
    }
}

fn names(sessions: &[WindowsSession]) -> Vec<String> {
    sessions.iter().map(|s| s.name.clone().unwrap_or_default()).collect()
}

#[test]
fn the_console_is_listed_once_and_first() {
    let listed = get_available_sessions(
        true,
        &snapshot("RDP-Tcp#0:2,Console:1", 1, &[(1, "ann"), (2, "bob")], None),
    );
    assert_eq!(session_ids(&listed), vec![1, 2]);
    assert!(listed[0].is_physical_console);
    assert!(!listed[1].is_physical_console);
    assert_eq!(names(&listed), vec!["Console: ann", "RDP-Tcp#0: bob"]);
}

#[test]
fn a_session_that_is_enumerated_twice_is_listed_once() {
    let listed = get_available_sessions(false, &snapshot("A:3,B:3,C:4,A:4", NO_SESSION, &[], None));
    assert_eq!(session_ids(&listed), vec![3, 4]);
}

#[test]
fn the_cheap_listing_has_no_names() {
    let listed = get_available_sessions(
        false,
        &snapshot("Console:1,RDP-Tcp#0:2", 1, &[(1, "ann")], Some(2)),
    );
    assert_eq!(
        listed,
        vec![
            WindowsSession { sid: 1, name: None, is_physical_console: true, is_current: false },
            WindowsSession { sid: 2, name: None, is_physical_console: false, is_current: true },
        ]
    );
}

#[test]
fn a_session_without_a_user_is_named_after_its_station() {
    let listed = get_available_sessions(true, &snapshot("Services:0,RDP-Tcp#1:3", 1, &[(3, "eve")], None));
    assert_eq!(names(&listed), vec!["Console", "Services", "RDP-Tcp#1: eve"]);
}

#[test]
fn equal_names_are_told_apart_by_the_session_id() {
    let listed = get_available_sessions(
        true,
        &snapshot("RDP:2,RDP:3,RDP:40", NO_SESSION, &[(2, "ann"), (3, "ann"), (40, "bob")], None),
    );
    assert_eq!(
        names(&listed),
        vec!["RDP: ann (sid = 2)", "RDP: ann (sid = 3)", "RDP: bob"]
    );
}

#[test]
fn the_session_of_the_caller_is_marked_as_running() {
    let listed = get_available_sessions(
        true,
        &snapshot("RDP:2,RDP:3", 1, &[(2, "ann"), (3, "ann")], Some(3)),
    );
    assert_eq!(
        names(&listed),
        vec!["Console", "RDP: ann (sid = 2)", "RDP: ann (sid = 3) (running)"]
    );
    assert_eq!(listed.iter().map(|s| s.is_current).collect::<Vec<_>>(), vec![false, false, true]);
}

#[test]
fn session_zero_is_never_marked_as_running() {
    let listed = get_available_sessions(true, &snapshot("Services:0", NO_SESSION, &[], Some(0)));
    assert_eq!(names(&listed), vec!["Services"]);
    assert!(!listed[0].is_current);
}

#[test]
fn nothing_is_listed_when_the_system_answers_nothing() {
    assert_eq!(get_available_sessions(true, &snapshot("", NO_SESSION, &[], None)), vec![]);
    assert_eq!(get_available_sessions(false, &snapshot("\0\0\0\0", NO_SESSION, &[], Some(1))), vec![]);
}

#[test]
fn padding_and_white_space_around_the_enumeration_are_dropped() {
    let listed = get_available_sessions(false, &snapshot("\0 \n Console:1,RDP:2 \t\0\0", NO_SESSION, &[], None));
    assert_eq!(session_ids(&listed), vec![1, 2]);
}

#[test]
fn entries_that_are_not_a_station_and_a_number_are_skipped() {
    let listed = get_available_sessions(
        true,
        &snapshot("RDP:2:x,:7,lonely,RDP:-1,RDP:,RDP:4294967296,RDP: 5,R:+8,Z:4294967295", NO_SESSION, &[], None),
    );
    assert_eq!(session_ids(&listed), vec![7, 8, 4294967295]);
    assert_eq!(names(&listed), vec!["", "R", "Z"]);
}

#[test]
fn the_first_user_recorded_for_a_session_names_it() {
    let listed = get_available_sessions(true, &snapshot("RDP:2", NO_SESSION, &[(2, "ann"), (2, "bob")], None));
    assert_eq!(names(&listed), vec!["RDP: ann"]);
}

#[test]
fn the_console_session_is_told_from_the_others() {
    assert_eq!(is_physical_console_session(Some(1), 1), Some(true));
    assert_eq!(is_physical_console_session(Some(2), 1), Some(false));
    assert_eq!(is_physical_console_session(Some(2), NO_SESSION), None);
    assert_eq!(is_physical_console_session(None, 1), None);
}
