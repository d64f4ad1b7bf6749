//! The connectivity of the displays as the graphics drivers record it in the
//! registry: what a change of it was, and how it is taken back.

use crate::registry::{
    isize_to_reg_type, reg_type_number, reg_type_of, reg_type_to_isize, RegType,
};
use crate::text::{append_str, chars_of, is_text, string_of};
use vstd::prelude::*;

verus! {

/// A value of the registry.
#[derive(Debug, PartialEq, Eq)]
pub struct RegValue {
    pub bytes: Vec<u8>,
    pub vtype: RegType,
}

/// A value with its name.
#[derive(Debug, PartialEq, Eq)]
pub struct RegItem {
    pub name: String,
    pub value: RegValue,
}

/// A key with its values.
#[derive(Debug, PartialEq, Eq)]
pub struct RegSubkey {
    pub name: String,
    pub values: Vec<RegItem>,
}

/// What is needed to take a change of a value back.
#[derive(Debug, PartialEq, Eq)]
pub struct RegRecovery {
    /// The key of the value, below the local machine.
    pub path: String,
    /// The name of the value.
    pub key: String,
    /// The bytes and the kind of the value before the change.
    pub old: (Vec<u8>, isize),
    /// The bytes and the kind of the value after the change.
    pub new: (Vec<u8>, isize),
}

/// The name of the value that records the connectivity last seen.
pub open spec fn recent_name() -> Seq<char> {
    "Recent"@
}

/// The key under which the connectivity of one adapter is recorded.
pub open spec fn connectivity_path(subkey: Seq<char>) -> Seq<char> {
    "SYSTEM\\CurrentControlSet\\Control\\GraphicsDrivers\\Connectivity\\"@ + subkey
}

/// The index of the first value named `Recent`, or the number of values
/// where none is named so.
pub open spec fn recent_index(values: Seq<RegItem>) -> int
    decreases values.len(),
{
    if values.len() == 0 {
        0
    } else if values[0].name@ == recent_name() {
        0
    } else {
        1 + recent_index(values.drop_first())
    }
}

/// The index of the first key of the given name, or the number of keys where
/// none has the name.
pub open spec fn subkey_index(keys: Seq<RegSubkey>, name: Seq<char>) -> int
    decreases keys.len(),
{
    if keys.len() == 0 {
        0
    } else if keys[0].name@ == name {
        0
    } else {
        1 + subkey_index(keys.drop_first(), name)
    }
}

/// Whether two values are the same: the same bytes of the same kind.
pub open spec fn same_value(a: RegValue, b: RegValue) -> bool {
    a.bytes@ == b.bytes@ && a.vtype == b.vtype
}

/// Whether a key of the later state records another connectivity than the
/// key of the same name in the earlier state: both have a value named
/// `Recent`, and the two differ.
pub open spec fn has_changed(before: Seq<RegSubkey>, later: RegSubkey) -> bool {
    let at = subkey_index(before, later.name@);
    &&& at < before.len()
    &&& recent_index(before[at].values@) < before[at].values@.len()
    &&& recent_index(later.values@) < later.values@.len()
    &&& !same_value(
        before[at].values@[recent_index(before[at].values@)].value,
        later.values@[recent_index(later.values@)].value,
    )
}

/// Whether a recovery takes back the change that `later` is of `before`.
pub open spec fn recovers(recovery: RegRecovery, before: Seq<RegSubkey>, later: RegSubkey) -> bool {
    let at = subkey_index(before, later.name@);
    let old = before[at].values@[recent_index(before[at].values@)].value;
    let new = later.values@[recent_index(later.values@)].value;
    &&& recovery.path@ == connectivity_path(later.name@)
    &&& recovery.key@ == recent_name()
    &&& recovery.old.0@ == old.bytes@
    &&& recovery.old.1 == reg_type_number(old.vtype)
    &&& recovery.new.0@ == new.bytes@
    &&& recovery.new.1 == reg_type_number(new.vtype)
}

fn find_recent(values: &Vec<RegItem>) -> (r: usize)
    ensures
        r == recent_index(values@),
        r <= values.len(),
{
    let mut i: usize = 0;
    assert(values@.skip(0) =~= values@);
    while i < values.len()
        invariant
            i <= values.len(),
            recent_index(values@) == i + recent_index(values@.skip(i as int)),
        decreases values.len() - i,
    {
        assert(values@.skip(i as int)[0] == values@[i as int]);
        if is_text(values[i].name.as_str(), "Recent") {
            return i;
        }
        assert(values@.skip(i as int).drop_first() =~= values@.skip(i + 1));
        i += 1;
    }
    assert(values@.skip(values.len() as int).len() == 0);
    i
}

fn find_subkey(keys: &Vec<RegSubkey>, name: &str) -> (r: usize)
    ensures
        r == subkey_index(keys@, name@),
        r <= keys.len(),
{
    let mut i: usize = 0;
    assert(keys@.skip(0) =~= keys@);
    while i < keys.len()
        invariant
            i <= keys.len(),
            subkey_index(keys@, name@) == i + subkey_index(keys@.skip(i as int), name@),
        decreases keys.len() - i,
    {
        assert(keys@.skip(i as int)[0] == keys@[i as int]);
        if is_text(keys[i].name.as_str(), name) {
            return i;
        }
        assert(keys@.skip(i as int).drop_first() =~= keys@.skip(i + 1));
        i += 1;
    }
    assert(keys@.skip(keys.len() as int).len() == 0);
    i
}

fn same_bytes(a: &Vec<u8>, b: &Vec<u8>) -> (r: bool)
    ensures
        r == (a@ == b@),
{
    if a.len() != b.len() {
        return false;
    }
    let mut i: usize = 0;
    while i < a.len()
        invariant
            i <= a.len(),
            a.len() == b.len(),
            forall|j: int| 0 <= j < i ==> a@[j] == b@[j],
        decreases a.len() - i,
    {
        if a[i] != b[i] {
            return false;
        }
        i += 1;
    }
    assert(a@ =~= b@);
    true
}

fn copy_bytes(a: &Vec<u8>) -> (r: Vec<u8>)
    ensures
        r@ == a@,
{
    let mut r: Vec<u8> = Vec::new();
    let mut i: usize = 0;
    while i < a.len()
        invariant
            i <= a.len(),
            r@ == a@.take(i as int),
        decreases a.len() - i,
    {
        r.push(a[i]);
        assert(a@.take(i + 1) =~= a@.take(i as int).push(a@[i as int]));
        i += 1;
    }
    assert(a@.take(a.len() as int) =~= a@);
    r
}

fn values_are_same(a: &RegValue, b: &RegValue) -> (r: bool)
    ensures
        r == same_value(*a, *b),
{
    same_bytes(&a.bytes, &b.bytes) && reg_type_to_isize(a.vtype) == reg_type_to_isize(b.vtype)
}

/// Finds what changed between two recordings of the connectivity: the first
/// key of the later recording whose `Recent` differs from that of the key of
/// the same name in the earlier one. Nothing is found where no key differs.
pub fn diff_recent_connectivity(map1: &Vec<RegSubkey>, map2: &Vec<RegSubkey>) -> (r: Option<
    RegRecovery,
>)
    ensures
        match r {
            Some(recovery) => exists|i: int|
                0 <= i < map2@.len() && has_changed(map1@, #[trigger] map2@[i]) && recovers(
                    recovery,
                    map1@,
                    map2@[i],
                ) && forall|j: int| 0 <= j < i ==> !has_changed(map1@, #[trigger] map2@[j]),
            None => forall|j: int| 0 <= j < map2@.len() ==> !has_changed(map1@, #[trigger] map2@[j]),
        },
{
    let mut i: usize = 0;
    while i < map2.len()
        invariant
            i <= map2.len(),
            forall|j: int| 0 <= j < i ==> !has_changed(map1@, #[trigger] map2@[j]),
        decreases map2.len() - i,
    {
        let later = &map2[i];
        let at = find_subkey(map1, later.name.as_str());
        if at < map1.len() {
            let r1 = find_recent(&map1[at].values);
            let r2 = find_recent(&later.values);
            if r1 < map1[at].values.len() && r2 < later.values.len() {
                let value1 = &map1[at].values[r1].value;
                let value2 = &later.values[r2].value;
                if !values_are_same(value1, value2) {
                    let mut path = chars_of(
                        "SYSTEM\\CurrentControlSet\\Control\\GraphicsDrivers\\Connectivity\\",
                    );
                    append_str(&mut path, later.name.as_str());
                    let recovery = RegRecovery {
                        path: string_of(&path),
                        key: string_of(&chars_of("Recent")),
                        old: (copy_bytes(&value1.bytes), reg_type_to_isize(value1.vtype)),
                        new: (copy_bytes(&value2.bytes), reg_type_to_isize(value2.vtype)),
                    };
                    assert(has_changed(map1@, map2@[i as int]));
                    assert(recovers(recovery, map1@, map2@[i as int]));
                    return Some(recovery);
                }
            }
        }
        i += 1;
    }
    None
}

/// Decides what is written to take a change back. Unless it is forced, a
/// change is taken back only where the value is still what the change made
/// it: anything else was written by somebody else and is left alone. What is
/// written is the value from before the change.
pub fn restore_reg_connectivity(reg_recovery: RegRecovery, force: bool, current: &RegValue) -> (r:
    Option<RegValue>)
    ensures
        r is Some <==> force || (current.bytes@ == reg_recovery.new.0@ && current.vtype
            == reg_type_of(reg_recovery.new.1)),
        r matches Some(value) ==> value.bytes@ == reg_recovery.old.0@ && value.vtype
            == reg_type_of(reg_recovery.old.1),
{
    if !force {
        let kind = isize_to_reg_type(reg_recovery.new.1);
        if !(same_bytes(&current.bytes, &reg_recovery.new.0) && reg_type_to_isize(current.vtype)
            == reg_type_to_isize(kind)) {
            return None;
        }
    }
    Some(RegValue { bytes: reg_recovery.old.0, vtype: isize_to_reg_type(reg_recovery.old.1) })
}

} // verus!
