//! Logging on as another user: how an account name is taken apart and how a
//! failure is told.

use crate::text::{
    append_str, chars_of, split, split_on, split_on_is_nonempty, string_of, texts,
};
use vstd::prelude::*;

verus! {

/// The error code of a failed logon.
pub const ERROR_LOGON_FAILURE: u32 = 1326;

/// The error code of a refused access.
pub const ERROR_ACCESS_DENIED: u32 = 5;

/// Why a process could not be created for another user.
#[derive(Clone, Copy, Debug, PartialEq, Eq, Structural)]
pub enum LogonFailure {
    /// The user name or the password is wrong.
    BadCredentials,
    /// Access is denied.
    AccessDenied,
    /// Any other error.
    Unknown,
}

/// Tells what an error code of a logon means.
pub fn logon_failure(os_error: u32) -> (r: LogonFailure)
    ensures
        r == (if os_error == ERROR_LOGON_FAILURE {
            LogonFailure::BadCredentials
        } else if os_error == ERROR_ACCESS_DENIED {
            LogonFailure::AccessDenied
        } else {
            LogonFailure::Unknown
        }),
{
    if os_error == ERROR_LOGON_FAILURE {
        LogonFailure::BadCredentials
    } else if os_error == ERROR_ACCESS_DENIED {
        LogonFailure::AccessDenied
    } else {
        LogonFailure::Unknown
    }
}

/// The user of an account: what stands between the first backslash and the
/// second, or the whole where there is no backslash.
pub open spec fn account_user(account: Seq<char>) -> Seq<char> {
    let parts = split_on(account, '\\');
    if parts.len() >= 2 {
        parts[1]
    } else {
        account
    }
}

/// The domain of an account: what stands before the first backslash, or the
/// whole where there is no backslash.
pub open spec fn account_domain(account: Seq<char>) -> Seq<char> {
    split_on(account, '\\')[0]
}

/// Takes an account name apart into the user and the domain.
pub fn split_account(account: &str) -> (r: (String, String))
    ensures
        r.0@ == account_user(account@),
        r.1@ == account_domain(account@),
{
    let whole = chars_of(account);
    let parts = split(&whole, '\\');
    proof {
        split_on_is_nonempty(account@, '\\');
        assert(texts(parts@)[0] == parts@[0]@);
    }
    let domain = string_of(&parts[0]);
    let user = if parts.len() >= 2 {
        assert(texts(parts@)[1] == parts@[1]@);
        string_of(&parts[1])
    } else {
        string_of(&whole)
    };
    (user, domain)
}

/// The command line of a process that is created for another user: the
/// executable in double quotes, and the arguments after a space if there are any.
pub open spec fn logon_command(exe: Seq<char>, arg: Seq<char>) -> Seq<char> {
    if arg.len() == 0 {
        "\""@ + exe + "\""@
    } else {
        "\""@ + exe + "\" "@ + arg
    }
}

/// Builds the command line of a process that is created for another user.
pub fn create_process_with_logon(exe: &str, arg: &str) -> (r: String)
    ensures
        r@ == logon_command(exe@, arg@),
{
    let mut line = chars_of("\"");
    append_str(&mut line, exe);
    if arg.unicode_len() == 0 {
        append_str(&mut line, "\"");
    } else {
        append_str(&mut line, "\" ");
        append_str(&mut line, arg);
    }
    string_of(&line)
}

} // verus!
