//! The secure attention sequence: what has to be done to the policy that
//! lets a service generate it, before and after the sequence is sent.

use vstd::prelude::*;

verus! {

/// The policy value that lets services generate the sequence.
pub const SAS_SERVICES: u32 = 1;

/// The policy value that lets services and ease-of-access applications generate it.
pub const SAS_BOTH: u32 = 3;

/// What is done to the policy value once the sequence was sent.
#[derive(Clone, Copy, Debug, PartialEq, Eq, Structural)]
pub enum SasRestore {
    /// The value was not touched and is left alone.
    Keep,
    /// The value is deleted.
    Delete,
    /// The value is set back to what it was.
    PutBack(u32),
}

/// What surrounds the sending of the sequence.
#[derive(Clone, Copy, Debug, PartialEq, Eq, Structural)]
pub struct SasPlan {
    /// Whether the policy value is set to `SAS_SERVICES` before the sequence is sent.
    pub enable: bool,
    /// What is done to the value afterwards.
    pub restore: SasRestore,
}

/// What was found of the policy.
#[derive(Clone, Copy, Debug, PartialEq, Eq, Structural)]
pub enum SasPolicy {
    /// The policy key could not be opened.
    Unavailable,
    /// The key was opened, but the value could not be read.
    Missing,
    /// The value that was read.
    Value(u32),
}

/// The plan for a policy. A value that already lets services generate the
/// sequence is left alone, and so is a key that cannot be opened. Any other
/// value is replaced for the time of the sending and put back afterwards; a
/// value of zero and a missing value are both restored by deleting the value.
pub open spec fn sas_plan(policy: SasPolicy) -> SasPlan {
    match policy {
        SasPolicy::Unavailable => SasPlan { enable: false, restore: SasRestore::Keep },
        SasPolicy::Missing => SasPlan { enable: true, restore: SasRestore::Delete },
        SasPolicy::Value(v) => if v == SAS_SERVICES || v == SAS_BOTH {
            SasPlan { enable: false, restore: SasRestore::Keep }
        } else if v == 0 {
            SasPlan { enable: true, restore: SasRestore::Delete }
        } else {
            SasPlan { enable: true, restore: SasRestore::PutBack(v) }
        },
    }
}

/// Plans the sending of a secure attention sequence.
pub fn send_sas(policy: SasPolicy) -> (r: SasPlan)
    ensures
        r == sas_plan(policy),
{
    match policy {
        SasPolicy::Unavailable => SasPlan { enable: false, restore: SasRestore::Keep },
        SasPolicy::Missing => SasPlan { enable: true, restore: SasRestore::Delete },
        SasPolicy::Value(v) => {
            if v == SAS_SERVICES || v == SAS_BOTH {
                SasPlan { enable: false, restore: SasRestore::Keep }
            } else if v == 0 {
                SasPlan { enable: true, restore: SasRestore::Delete }
            } else {
                SasPlan { enable: true, restore: SasRestore::PutBack(v) }
            }
        },
    }
}

/// The policy is changed exactly when it is put back, and it is never put
/// back to a value that would have been left alone.
pub proof fn sas_plan_undoes_what_it_does(policy: SasPolicy)
    ensures
        sas_plan(policy).enable <==> !(sas_plan(policy).restore is Keep),
        sas_plan(policy).restore matches SasRestore::PutBack(v) ==> policy == SasPolicy::Value(v) && v
            != 0 && v != SAS_SERVICES && v != SAS_BOTH,
{
}

} // verus!
