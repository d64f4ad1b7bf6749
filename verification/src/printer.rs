//! Printing: which printer a job goes to.

use crate::text::{chars_of, equal};
use vstd::prelude::*;

verus! {

/// Why no printer could be chosen.
#[derive(Clone, Copy, Debug, PartialEq, Eq, Structural)]
pub enum PrinterError {
    /// The printer that was asked for is not among the printers of the system.
    NotFound,
    /// No printer was asked for and the system has no default printer.
    NoPrinter,
}

/// Whether a name is among the names given.
pub open spec fn is_listed(names: Seq<String>, name: Seq<char>) -> bool {
    exists|i: int| 0 <= i < names.len() && (#[trigger] names[i])@ == name
}

/// The printer a job goes to. A printer that is asked for has to be among
/// the printers of the system where those could be listed; where none is
/// asked for, the default printer is taken.
pub open spec fn chosen_printer(
    requested: Seq<char>,
    default_name: Seq<char>,
    known: Option<Seq<String>>,
) -> Result<Seq<char>, PrinterError> {
    if requested.len() == 0 {
        if default_name.len() == 0 {
            Err(PrinterError::NoPrinter)
        } else {
            Ok(default_name)
        }
    } else if known matches Some(names) && !is_listed(names, requested) {
        Err(PrinterError::NotFound)
    } else {
        Ok(requested)
    }
}

fn lists(names: &Vec<String>, name: &Vec<char>) -> (r: bool)
    ensures
        r == is_listed(names@, name@),
{
    let mut i: usize = 0;
    while i < names.len()
        invariant
            i <= names.len(),
            forall|j: int| 0 <= j < i ==> (#[trigger] names@[j])@ != name@,
        decreases names.len() - i,
    {
        if equal(&chars_of(names[i].as_str()), name) {
            return true;
        }
        i += 1;
    }
    false
}

/// Chooses the printer for raw data. `printer_name` is the printer that is
/// asked for, `default_name` the default printer of the system or empty, and
/// `known` the printers of the system where they could be listed.
pub fn send_raw_data_to_printer(
    printer_name: Option<String>,
    default_name: &str,
    known: Option<&Vec<String>>,
) -> (r: Result<String, PrinterError>)
    ensures
        match r {
            Ok(name) => chosen_printer(
                match printer_name {
                    Some(n) => n@,
                    None => Seq::<char>::empty(),
                },
                default_name@,
                match known {
                    Some(names) => Some(names@),
                    None => None,
                },
            ) == Ok::<Seq<char>, PrinterError>(name@),
            Err(e) => chosen_printer(
                match printer_name {
                    Some(n) => n@,
                    None => Seq::<char>::empty(),
                },
                default_name@,
                match known {
                    Some(names) => Some(names@),
                    None => None,
                },
            ) == Err::<Seq<char>, PrinterError>(e),
        },
{
    let requested = match printer_name {
        Some(n) => n,
        None => String::new(),
    };
    let wanted = chars_of(requested.as_str());
    if wanted.len() == 0 {
        if default_name.unicode_len() == 0 {
            Err(PrinterError::NoPrinter)
        } else {
            Ok(crate::text::string_of(&chars_of(default_name)))
        }
    } else {
        match known {
            Some(names) => {
                if !lists(names, &wanted) {
                    return Err(PrinterError::NotFound);
                }
            },
            None => {},
        }
        Ok(requested)
    }
}

/// Whether a printer of the given name is kept when the printers are
/// listed: its name has at least one unit and fewer than 500.
pub fn get_printer_names(name_len: usize) -> (r: bool)
    ensures
        r == (0 < name_len < 500),
{
    name_len > 0 && name_len < 500
}

} // verus!
