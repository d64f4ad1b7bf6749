//! Reading the process list that `wmic` prints with `/value`: pairs of a
//! `CommandLine=` line and a `ProcessId=` line.

use crate::text::{
    append_str, chars_of, contains, contains_is_found, contains_text, ends_with, find,
    find_from, find_from_is_first, has_prefix, has_suffix, lines, lines_of, lowercase, lowercased,
    occurs_at,
    parse_u32, parsed_u32, replace_after, replace_from, slice, slices, starts_with, texts, trim,
    trimmed,
};
use vstd::prelude::*;

verus! {

/// How a command line is held against what is looked for.
pub ghost enum Rule {
    /// Every argument occurs somewhere in the command line; without
    /// arguments, the command line ends with the name of the program.
    Args { name: Seq<char>, args: Seq<Seq<char>> },
    /// The first argument after the name of the program begins with `arg`;
    /// with an empty `arg`, nothing follows the name.
    FirstArg { name: Seq<char>, arg: Seq<char> },
}

/// What has been read so far: the process ids that were taken, and
/// whether the last command line matched.
pub ghost struct Scan {
    pub pids: Seq<u32>,
    pub found: bool,
}

/// Whether a command line matches given arguments.
pub open spec fn matches_args(cmd: Seq<char>, name: Seq<char>, args: Seq<Seq<char>>) -> bool {
    if args.len() == 0 {
        has_suffix(cmd, name) || has_suffix(cmd, name + "\""@)
    } else {
        forall|i: int| 0 <= i < args.len() ==> contains_text(cmd, #[trigger] args[i])
    }
}

/// What follows the first occurrence of `mark` in `cmd`, without any further
/// occurrence of `mark`.
pub open spec fn rest_after(cmd: Seq<char>, mark: Seq<char>) -> Seq<char> {
    if mark.len() == 0 {
        cmd
    } else {
        match find_from(cmd, mark, 0) {
            Some(i) => replace_from(cmd, mark, Seq::<char>::empty(), i + mark.len()),
            None => cmd,
        }
    }
}

/// Whether what follows the name of the program is what is looked for.
pub open spec fn tail_matches(rest: Seq<char>, arg: Seq<char>) -> bool {
    if arg.len() == 0 {
        trimmed(rest).len() == 0
    } else {
        has_prefix(trimmed(rest), arg)
    }
}

/// Whether a command line matches a first argument.
pub open spec fn matches_first_arg(cmd: Seq<char>, name: Seq<char>, arg: Seq<char>) -> bool {
    if cmd.len() == 0 {
        false
    } else if arg.len() > 0 && has_prefix(cmd, arg) {
        true
    } else if contains_text(cmd, name + "\""@) {
        tail_matches(rest_after(cmd, name + "\""@), arg)
    } else if contains_text(cmd, name) {
        tail_matches(rest_after(cmd, name), arg)
    } else {
        false
    }
}

/// Whether a command line matches under a rule.
pub open spec fn command_matches(rule: Rule, cmd: Seq<char>) -> bool {
    match rule {
        Rule::Args { name, args } => matches_args(cmd, name, args),
        Rule::FirstArg { name, arg } => matches_first_arg(cmd, name, arg),
    }
}

/// What one line adds to what has been read. A `CommandLine=` line decides
/// whether the process matches; the `ProcessId=` line that follows a match
/// gives its id, if what it holds is a number. Any other line changes nothing.
pub open spec fn scan_line(state: Scan, line: Seq<char>, rule: Rule) -> Scan {
    if has_prefix(line, "ProcessId="@) {
        if state.found {
            match parsed_u32(trimmed(line.skip(10))) {
                Some(pid) => Scan { pids: state.pids.push(pid), found: false },
                None => Scan { pids: state.pids, found: false },
            }
        } else {
            state
        }
    } else if has_prefix(line, "CommandLine="@) {
        Scan { pids: state.pids, found: command_matches(rule, lowercase(trimmed(line.skip(12)))) }
    } else {
        state
    }
}

/// What has been read after all the given lines.
pub open spec fn scan(lines: Seq<Seq<char>>, rule: Rule) -> Scan
    decreases lines.len(),
{
    if lines.len() == 0 {
        Scan { pids: Seq::<u32>::empty(), found: false }
    } else {
        scan_line(scan(lines.drop_last(), rule), lines.last(), rule)
    }
}

/// The ids of the processes in `output` whose command line matches under `rule`.
pub open spec fn matching_pids(output: Seq<char>, rule: Rule) -> Seq<u32> {
    scan(lines_of(output), rule).pids
}

fn args_match(cmd: &Vec<char>, name: &str, args: &Vec<&str>) -> (r: bool)
    ensures
        r == matches_args(cmd@, name@, slices(args@)),
{
    if args.len() == 0 {
        let mut quoted = chars_of(name);
        if ends_with(cmd, &quoted) {
            return true;
        }
        append_str(&mut quoted, "\"");
        ends_with(cmd, &quoted)
    } else {
        let mut i: usize = 0;
        while i < args.len()
            invariant
                i <= args.len(),
                forall|j: int| 0 <= j < i ==> contains_text(cmd@, #[trigger] slices(args@)[j]),
            decreases args.len() - i,
        {
            let wanted = chars_of(args[i]);
            if !contains(cmd, &wanted) {
                assert(!contains_text(cmd@, slices(args@)[i as int]));
                return false;
            }
            i += 1;
        }
        true
    }
}

fn tail_is_wanted(rest: &Vec<char>, arg: &Vec<char>) -> (r: bool)
    ensures
        r == tail_matches(rest@, arg@),
{
    let tail = trim(rest);
    if arg.len() == 0 {
        tail.len() == 0
    } else {
        starts_with(&tail, arg)
    }
}

fn cut_after(cmd: &Vec<char>, mark: &Vec<char>) -> (r: Option<Vec<char>>)
    ensures
        match r {
            Some(rest) => contains_text(cmd@, mark@) && rest@ == rest_after(cmd@, mark@),
            None => !contains_text(cmd@, mark@),
        },
{
    proof {
        contains_is_found(cmd@, mark@);
        find_from_is_first(cmd@, mark@, 0);
    }
    let first = find(cmd, mark, 0);
    match first {
        Some(i) => {
            assert(occurs_at(cmd@, mark@, i as int));
            let n: usize = mark.len();
            let total: usize = cmd.len();
            assert(i + n <= total);
            if n == 0 {
                let whole = slice(cmd, 0, total);
                assert(whole@ =~= cmd@);
                Some(whole)
            } else {
                let from: usize = i + n;
                let empty: Vec<char> = Vec::new();
                Some(replace_after(cmd, mark, &empty, from))
            }
        },
        None => None,
    }
}

fn first_arg_matches(cmd: &Vec<char>, name: &str, arg: &Vec<char>) -> (r: bool)
    ensures
        r == matches_first_arg(cmd@, name@, arg@),
{
    if cmd.len() == 0 {
        return false;
    }
    if arg.len() != 0 && starts_with(cmd, arg) {
        return true;
    }
    let plain = chars_of(name);
    let mut quoted = chars_of(name);
    append_str(&mut quoted, "\"");
    match cut_after(cmd, &quoted) {
        Some(rest) => tail_is_wanted(&rest, arg),
        None => match cut_after(cmd, &plain) {
            Some(rest) => tail_is_wanted(&rest, arg),
            None => false,
        },
    }
}

fn pids_in(output: &str, name: &str, args: &Vec<&str>, arg: &Vec<char>, first_only: bool) -> (r:
    Vec<u32>)
    ensures
        r@ == matching_pids(
            output@,
            if first_only {
                Rule::FirstArg { name: name@, arg: arg@ }
            } else {
                Rule::Args { name: name@, args: slices(args@) }
            },
        ),
{
    let ghost rule = if first_only {
        Rule::FirstArg { name: name@, arg: arg@ }
    } else {
        Rule::Args { name: name@, args: slices(args@) }
    };
    let all = lines(&chars_of(output));
    let pid_mark = chars_of("ProcessId=");
    let cmd_mark = chars_of("CommandLine=");
    proof {
        reveal_strlit("ProcessId=");
        reveal_strlit("CommandLine=");
    }
    let mut pids: Vec<u32> = Vec::new();
    let mut found = false;
    let mut i: usize = 0;
    assert(texts(all@).take(0) =~= Seq::<Seq<char>>::empty());
    while i < all.len()
        invariant
            i <= all.len(),
            pid_mark@ == "ProcessId="@,
            cmd_mark@ == "CommandLine="@,
            pid_mark@.len() == 10,
            cmd_mark@.len() == 12,
            rule == (if first_only {
                Rule::FirstArg { name: name@, arg: arg@ }
            } else {
                Rule::Args { name: name@, args: slices(args@) }
            }),
            scan(texts(all@).take(i as int), rule) == (Scan { pids: pids@, found }),
        decreases all.len() - i,
    {
        let line = &all[i];
        proof {
            let upto = texts(all@).take(i + 1);
            assert(upto.drop_last() =~= texts(all@).take(i as int));
            assert(upto.last() == line@);
        }
        if starts_with(line, &pid_mark) {
            if found {
                let number = trim(&slice(line, 10, line.len()));
                assert(line@.subrange(10, line@.len() as int) =~= line@.skip(10));
                match parse_u32(&number) {
                    Some(pid) => {
                        pids.push(pid);
                    },
                    None => {},
                }
                found = false;
            }
        } else if starts_with(line, &cmd_mark) {
            let cmd = lowercased(&trim(&slice(line, 12, line.len())));
            assert(line@.subrange(12, line@.len() as int) =~= line@.skip(12));
            found = if first_only {
                first_arg_matches(&cmd, name, arg)
            } else {
                args_match(&cmd, name, args)
            };
        }
        i += 1;
    }
    assert(texts(all@).take(all.len() as int) =~= texts(all@));
    pids
}

/// The ids of the processes whose command line holds every one of `args`;
/// without arguments, of those whose command line ends with `name`, bare or
/// followed by a double quote. Command lines are held in lowercase against
/// `name` and `args` as they are given.
pub fn get_pids_with_args_from_wmic_output(output: &str, name: &str, args: &Vec<&str>) -> (r: Vec<
    u32,
>)
    ensures
        r@ == matching_pids(output@, Rule::Args { name: name@, args: slices(args@) }),
{
    let unused: Vec<char> = Vec::new();
    pids_in(output, name, args, &unused, false)
}

/// The ids of the processes whose first argument begins with `arg`; with an
/// empty `arg`, of those that were started without arguments. Command lines
/// are held in lowercase against `name` and `arg` as they are given.
pub fn get_pids_with_first_arg_from_wmic_output(output: &str, name: &str, arg: &str) -> (r: Vec<
    u32,
>)
    ensures
        r@ == matching_pids(output@, Rule::FirstArg { name: name@, arg: arg@ }),
{
    let unused: Vec<&str> = Vec::new();
    let wanted = chars_of(arg);
    pids_in(output, name, &unused, &wanted, true)
}

/// The processes that run in session `session`: those of `pids` whose
/// session, given at the same index of `sessions`, is that one.
pub open spec fn in_session(pids: Seq<u32>, sessions: Seq<Option<u32>>, session: u32) -> Seq<u32>
    decreases pids.len(),
{
    if pids.len() == 0 {
        Seq::<u32>::empty()
    } else {
        let before = in_session(pids.drop_last(), sessions, session);
        if pids.len() <= sessions.len() && sessions[pids.len() - 1] == Some(session) {
            before.push(pids.last())
        } else {
            before
        }
    }
}

/// The process ids that are left when they are narrowed to the caller's
/// session: all of them where that is not asked for, none at all where the
/// caller's session is unknown.
pub open spec fn narrowed(
    pids: Seq<u32>,
    sessions: Seq<Option<u32>>,
    same_session_id: bool,
    current: Option<u32>,
) -> Option<Seq<u32>> {
    if !same_session_id {
        Some(pids)
    } else {
        match current {
            Some(session) => Some(in_session(pids, sessions, session)),
            None => None,
        }
    }
}

/// Narrows process ids to those of the caller's session, if that is asked
/// for. `sessions` holds, for each of `pids`, the session it runs in, where
/// that could be determined. Where the caller's own session is unknown,
/// nothing can be narrowed and nothing is given.
pub fn get_pids_with_first_arg_check_session(
    pids: Vec<u32>,
    sessions: &Vec<Option<u32>>,
    same_session_id: bool,
    current: Option<u32>,
) -> (r: Option<Vec<u32>>)
    ensures
        match r {
            Some(kept) => narrowed(pids@, sessions@, same_session_id, current) == Some(kept@),
            None => narrowed(pids@, sessions@, same_session_id, current) is None,
        },
{
    if !same_session_id {
        return Some(pids);
    }
    match current {
        None => None,
        Some(session) => {
            let mut kept: Vec<u32> = Vec::new();
            let mut i: usize = 0;
            assert(pids@.take(0) =~= Seq::<u32>::empty());
            while i < pids.len()
                invariant
                    i <= pids.len(),
                    kept@ == in_session(pids@.take(i as int), sessions@, session),
                decreases pids.len() - i,
            {
                proof {
                    assert(pids@.take(i + 1).drop_last() =~= pids@.take(i as int));
                }
                if i < sessions.len() {
                    match sessions[i] {
                        Some(s) => {
                            if s == session {
                                kept.push(pids[i]);
                            }
                        },
                        None => {},
                    }
                }
                i += 1;
            }
            assert(pids@.take(pids.len() as int) =~= pids@);
            Some(kept)
        },
    }
}

} // verus!
