//! The options the program was installed with, as JSON.

use crate::registry::{
    REG_NAME_INSTALL_DESKTOPSHORTCUTS, REG_NAME_INSTALL_PRINTER,
    REG_NAME_INSTALL_STARTMENUSHORTCUTS,
};
use vstd::prelude::*;

verus! {

/// The map of `serde_json` that stands for a JSON object.
#[verifier::external_type_specification]
#[verifier::external_body]
#[verifier::reject_recursive_types(K)]
#[verifier::reject_recursive_types(V)]
pub struct ExJsonMap<K, V>(serde_json::Map<K, V>);

/// Any JSON value of `serde_json`.
#[verifier::external_type_specification]
#[verifier::external_body]
pub struct ExJsonValue(serde_json::Value);

/// The error of `serde_json`.
#[verifier::external_type_specification]
#[verifier::external_body]
pub struct ExJsonError(serde_json::Error);

/// A name for what a JSON object holds of strings: the members whose value
/// is a string, each key with its value.
pub uninterp spec fn json_strings(object: serde_json::Map<String, serde_json::Value>) -> Map<
    Seq<char>,
    Seq<char>,
>;

/// A name for whether every member of a JSON object is a string.
pub uninterp spec fn json_is_flat(object: serde_json::Map<String, serde_json::Value>) -> bool;

/// A name for the text `serde_json::to_string` gives for an object whose
/// members are the given strings.
pub uninterp spec fn json_text(members: Map<Seq<char>, Seq<char>>) -> Seq<char>;

/// The members of an empty object.
pub open spec fn no_members() -> Map<Seq<char>, Seq<char>> {
    Map::empty()
}

/// Calls `serde_json::Map::new`: the object has no members.
#[verifier::external_body]
fn json_new() -> (r: serde_json::Map<String, serde_json::Value>)
    ensures
        json_strings(r) == no_members(),
        json_is_flat(r),
{
    serde_json::Map::new()
}

/// Calls `serde_json::Map::insert` with a string as the value: the object
/// holds the value under the key afterwards, in place of what it held under
/// that key, and its other members are as they were.
#[verifier::external_body]
fn json_insert(object: &mut serde_json::Map<String, serde_json::Value>, key: &str, value: &str)
    ensures
        json_strings(*final(object)) == json_strings(*old(object)).insert(key@, value@),
        json_is_flat(*old(object)) ==> json_is_flat(*final(object)),
{
    object.insert(key.to_owned(), serde_json::Value::String(value.to_owned()));
}

/// Calls `serde_json::to_string` on an object of strings: where it succeeds,
/// the text depends on the members alone.
#[verifier::external_body]
fn json_to_string(object: &serde_json::Map<String, serde_json::Value>) -> (r: Result<
    String,
    serde_json::Error,
>)
    requires
        json_is_flat(*object),
    ensures
        r matches Ok(text) ==> text@ == json_text(json_strings(*object)),
{
    serde_json::to_string(object)
}

/// A map with one more member, if there is a value for it.
pub open spec fn with_option(
    members: Map<Seq<char>, Seq<char>>,
    key: Seq<char>,
    value: Option<Seq<char>>,
) -> Map<Seq<char>, Seq<char>> {
    match value {
        Some(v) => members.insert(key, v),
        None => members,
    }
}

/// The options that are recorded, each under its name.
pub open spec fn install_options(
    desktop_shortcuts: Option<Seq<char>>,
    start_menu_shortcuts: Option<Seq<char>>,
    printer: Option<Seq<char>>,
) -> Map<Seq<char>, Seq<char>> {
    with_option(
        with_option(
            with_option(
                no_members(),
                REG_NAME_INSTALL_DESKTOPSHORTCUTS@,
                desktop_shortcuts,
            ),
            REG_NAME_INSTALL_STARTMENUSHORTCUTS@,
            start_menu_shortcuts,
        ),
        REG_NAME_INSTALL_PRINTER@,
        printer,
    )
}

/// The characters of an optional string.
pub open spec fn option_text(value: Option<String>) -> Option<Seq<char>> {
    match value {
        Some(v) => Some(v@),
        None => None,
    }
}

/// The text of the options for each way the serialising can end: the text it
/// gave, or an empty object where it failed.
pub fn options_text(serialized: Result<String, serde_json::Error>) -> (r: String)
    ensures
        r@ == match serialized {
            Ok(text) => text@,
            Err(_) => "{}"@,
        },
{
    match serialized {
        Ok(text) => text,
        Err(_) => {
            let empty = "{}";
            empty.to_owned()
        },
    }
}

fn add_option(
    object: &mut serde_json::Map<String, serde_json::Value>,
    key: &str,
    value: &Option<String>,
)
    requires
        json_is_flat(*old(object)),
    ensures
        json_is_flat(*final(object)),
        json_strings(*final(object)) == with_option(
            json_strings(*old(object)),
            key@,
            option_text(*value),
        ),
{
    match value {
        Some(v) => {
            json_insert(object, key, v.as_str());
        },
        None => {},
    }
}

/// The options the program was installed with, as a JSON object: a member
/// for each option that is recorded, named after the option. The installation
/// directory is not among them. Should the serialising fail, the text is an
/// empty object.
pub fn get_install_options(
    desktop_shortcuts: Option<String>,
    start_menu_shortcuts: Option<String>,
    printer: Option<String>,
) -> (r: String)
    ensures
        r@ == json_text(
            install_options(
                option_text(desktop_shortcuts),
                option_text(start_menu_shortcuts),
                option_text(printer),
            ),
        ) || r@ == "{}"@,
{
    let mut object = json_new();
    add_option(&mut object, REG_NAME_INSTALL_DESKTOPSHORTCUTS, &desktop_shortcuts);
    add_option(&mut object, REG_NAME_INSTALL_STARTMENUSHORTCUTS, &start_menu_shortcuts);
    add_option(&mut object, REG_NAME_INSTALL_PRINTER, &printer);
    options_text(json_to_string(&object))
}

} // verus!
