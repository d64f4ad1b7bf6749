//! Raising the rights of the program: what is tried next, given what the
//! program already runs as.

use vstd::prelude::*;

verus! {

/// What is done to get the rights that are wanted.
#[derive(Clone, Copy, Debug, PartialEq, Eq)]
pub enum ElevationStep {
    /// The program runs as the system and serves as the portable service.
    RunPortableService,
    /// The program is started again as the system, with these arguments.
    RunAsSystem(&'static str),
    /// The program is started again with raised rights, with these arguments.
    Elevate(&'static str),
    /// Whether the program runs with raised rights could not be told; nothing is tried.
    Unknown,
    /// Nothing is left to try.
    Stay,
}

/// The arguments of a restart with raised rights.
pub open spec fn elevate_args(is_setup: bool) -> Seq<char> {
    if is_setup {
        "--noinstall --elevate"@
    } else {
        "--elevate"@
    }
}

/// The arguments of a restart as the system.
pub open spec fn system_args(is_setup: bool) -> Seq<char> {
    if is_setup {
        "--noinstall --run-as-system"@
    } else {
        "--run-as-system"@
    }
}

/// Decides how the program gets the rights it wants. A program that runs as
/// the system serves if it was started to; one with raised rights restarts
/// itself as the system, one without restarts itself with raised rights,
/// each unless it is itself the result of that restart.
pub fn elevate_or_run_as_system(
    is_setup: bool,
    is_elevate: bool,
    is_run_as_system: bool,
    is_root: bool,
    elevated: Option<bool>,
) -> (r: ElevationStep)
    ensures
        is_root ==> (r is RunPortableService <==> is_run_as_system) && (r is Stay
            <==> !is_run_as_system),
        !is_root && elevated is None ==> r is Unknown,
        !is_root && elevated == Some(true) ==> if is_run_as_system {
            r is Stay
        } else {
            r matches ElevationStep::RunAsSystem(args) && args@ == system_args(is_setup)
        },
        !is_root && elevated == Some(false) ==> if is_elevate {
            r is Stay
        } else {
            r matches ElevationStep::Elevate(args) && args@ == elevate_args(is_setup)
        },
{
    let arg_elevate = if is_setup {
        "--noinstall --elevate"
    } else {
        "--elevate"
    };
    let arg_run_as_system = if is_setup {
        "--noinstall --run-as-system"
    } else {
        "--run-as-system"
    };
    if is_root {
        if is_run_as_system {
            ElevationStep::RunPortableService
        } else {
            ElevationStep::Stay
        }
    } else {
        match elevated {
            Some(true) => {
                if !is_run_as_system {
                    ElevationStep::RunAsSystem(arg_run_as_system)
                } else {
                    ElevationStep::Stay
                }
            },
            Some(false) => {
                if !is_elevate {
                    ElevationStep::Elevate(arg_elevate)
                } else {
                    ElevationStep::Stay
                }
            },
            None => ElevationStep::Unknown,
        }
    }
}

/// Whether a shell execution succeeded: the shell answers with a number
/// above 32 where it did.
pub fn run_uac(shell_result: i32) -> (r: bool)
    ensures
        r == (shell_result > 32),
{
    shell_result > 32
}

} // verus!
