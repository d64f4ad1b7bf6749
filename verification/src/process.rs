//! Running processes: which of them are meant when a name is given.

use crate::text::{
    append_str, chars_of, contains, contains_text, equal, lowercase, lowercased,
};
use vstd::prelude::*;

verus! {

/// What is known of a running process.
#[derive(Debug)]
pub struct ProcessInfo {
    pub pid: u32,
    /// The name of the image.
    pub name: String,
    /// The command line, the program first.
    pub cmd: Vec<String>,
    /// The user the process runs as, where that is known.
    pub user_id: Option<String>,
    /// Whether the second entry of the command line is a link that names no peer.
    pub second_is_empty_link: bool,
}

/// Whether a process of the given image name is one of those looked for:
/// its name holds the name looked for, both taken in lowercase.
pub fn name_matches(image: &str, wanted: &str) -> (r: bool)
    ensures
        r == contains_text(lowercase(image@), lowercase(wanted@)),
{
    contains(&lowercased(&chars_of(image)), &lowercased(&chars_of(wanted)))
}

/// Whether a process may be ended under a name: its own name has to be that
/// name, both taken in lowercase.
pub fn may_kill(process_name: &str, name: &str) -> (r: bool)
    ensures
        r == (lowercase(process_name@) == lowercase(name@)),
{
    equal(&lowercased(&chars_of(process_name)), &lowercased(&chars_of(name)))
}

/// Whether two optional user ids are the same.
pub open spec fn same_user(a: Option<String>, b: Option<String>) -> bool {
    match (a, b) {
        (Some(x), Some(y)) => x@ == y@,
        (None, None) => true,
        _ => false,
    }
}

/// Whether a process shows the main window of the program for another
/// user: it is named after the program, with or without `.exe`; its command
/// line begins with a program of that name and has nothing after it but, at
/// most, a link that names no peer; it is not the calling process; and it
/// runs as another user.
pub open spec fn is_main_window(
    p: ProcessInfo,
    my_pid: u32,
    my_uid: Option<String>,
    app_name: Seq<char>,
) -> bool {
    let p_name = lowercase(p.name@);
    &&& (p_name == app_name || p_name == app_name + ".exe"@)
    &&& p.cmd@.len() >= 1
    &&& contains_text(lowercase(p.cmd@[0]@), p_name)
    &&& (p.cmd@.len() == 1 || (p.cmd@.len() == 2 && p.second_is_empty_link))
    &&& p.pid != my_pid
    &&& !same_user(p.user_id, my_uid)
}

fn users_are_same(a: &Option<String>, b: &Option<String>) -> (r: bool)
    ensures
        r == same_user(*a, *b),
{
    match (a, b) {
        (Some(x), Some(y)) => equal(&chars_of(x.as_str()), &chars_of(y.as_str())),
        (None, None) => true,
        _ => false,
    }
}

fn shows_main_window(p: &ProcessInfo, my_pid: u32, my_uid: &Option<String>, app_name: &Vec<char>) -> (r:
    bool)
    ensures
        r == is_main_window(*p, my_pid, *my_uid, app_name@),
{
    let p_name = lowercased(&chars_of(p.name.as_str()));
    let mut with_exe: Vec<char> = Vec::new();
    crate::text::append(&mut with_exe, app_name);
    append_str(&mut with_exe, ".exe");
    assert(with_exe@ =~= app_name@ + ".exe"@);
    if !(equal(&p_name, app_name) || equal(&p_name, &with_exe)) {
        return false;
    }
    if p.cmd.len() < 1 {
        return false;
    }
    if !contains(&lowercased(&chars_of(p.cmd[0].as_str())), &p_name) {
        return false;
    }
    if !(p.cmd.len() == 1 || (p.cmd.len() == 2 && p.second_is_empty_link)) {
        return false;
    }
    if p.pid == my_pid {
        return false;
    }
    !users_are_same(&p.user_id, my_uid)
}

/// Finds the process that shows the main window of the program for another
/// user: the first of `processes` that does. `app_name` is the name of the
/// program; with an empty name nothing is looked for.
pub fn try_kill_rustdesk_main_window_process(
    processes: &Vec<ProcessInfo>,
    my_pid: u32,
    my_uid: &Option<String>,
    app_name: &str,
) -> (r: Option<u32>)
    ensures
        app_name@.len() == 0 ==> r is None,
        match r {
            Some(pid) => exists|i: int|
                0 <= i < processes@.len() && processes@[i].pid == pid && is_main_window(
                    #[trigger] processes@[i],
                    my_pid,
                    *my_uid,
                    lowercase(app_name@),
                ) && forall|j: int|
                    0 <= j < i ==> !is_main_window(
                        #[trigger] processes@[j],
                        my_pid,
                        *my_uid,
                        lowercase(app_name@),
                    ),
            None => app_name@.len() != 0 ==> forall|j: int|
                0 <= j < processes@.len() ==> !is_main_window(
                    #[trigger] processes@[j],
                    my_pid,
                    *my_uid,
                    lowercase(app_name@),
                ),
        },
{
    if app_name.unicode_len() == 0 {
        return None;
    }
    let name = lowercased(&chars_of(app_name));
    let mut i: usize = 0;
    while i < processes.len()
        invariant
            i <= processes.len(),
            app_name@.len() != 0,
            name@ == lowercase(app_name@),
            forall|j: int|
                0 <= j < i ==> !is_main_window(#[trigger] processes@[j], my_pid, *my_uid, name@),
        decreases processes.len() - i,
    {
        if shows_main_window(&processes[i], my_pid, my_uid, &name) {
            return Some(processes[i].pid);
        }
        i += 1;
    }
    None
}

/// Whether the broker beside the program has to be copied anew: it is
/// missing, or its time of modification is unknown or another than that of
/// the broker of the system.
pub fn check_update_broker_process(
    present: bool,
    origin_modified: u64,
    current_modified: Option<u64>,
) -> (r: bool)
    ensures
        r == (!present || current_modified != Some(origin_modified)),
{
    if !present {
        return true;
    }
    match current_modified {
        Some(t) => t != origin_modified,
        None => true,
    }
}

/// Whether the running program is the installed one: the installed
/// executable exists, and the path of the running program is its path, both
/// taken in lowercase.
pub fn is_cur_exe_the_installed(installed_exists: bool, current: &str, installed: &str) -> (r: bool)
    ensures
        r == (installed_exists && lowercase(current@) == lowercase(installed@)),
{
    if !installed_exists {
        return false;
    }
    equal(&lowercased(&chars_of(current)), &lowercased(&chars_of(installed)))
}

} // verus!
