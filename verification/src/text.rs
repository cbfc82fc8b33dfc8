//! Texts in the encoding of the wide character functions of the driver
//! interface, as they are passed to the driver.

use vstd::prelude::*;
use widestring::U16Str;

verus! {

/// `widestring::U16Str`, a string slice of 16 bit code units without any
/// guarantee about what they encode. It is the form in which statement texts
/// and search patterns are handed to the driver.
#[verifier::external_type_specification]
#[verifier::external_body]
pub struct ExU16Str(U16Str);

/// The code units a text consists of, in their order.
pub uninterp spec fn units(text: &U16Str) -> Seq<u16>;

/// `U16Str::len`, which returns the number of code units of the text. A
/// terminating zero is not part of a `U16Str`, so there is none to count.
#[verifier::external_body]
fn len(text: &U16Str) -> (length: usize)
    ensures
        length == units(text).len(),
{
    text.len()
}

/// The number of code units passed to the driver along with a search
/// pattern: those of the pattern, none for a pattern which is not specified.
pub open spec fn units_of_pattern(pattern: Option<&U16Str>) -> nat {
    match pattern {
        Some(text) => units(text).len(),
        None => 0,
    }
}

/// The length to pass to the driver along with the text of a statement.
/// There is none if the text is longer than the driver interface has room
/// for.
pub fn text_length(text: &U16Str) -> (length: Option<i32>)
    ensures
        units(text).len() <= i32::MAX ==> length == Some(units(text).len() as i32),
        units(text).len() > i32::MAX ==> length is None,
{
    let n = len(text);
    if n <= i32::MAX as usize {
        Some(n as i32)
    } else {
        None
    }
}

/// The length to pass to the driver along with a search pattern for the
/// names of catalogs, schemas, tables or columns. A pattern which is not
/// specified has the length zero. There is no length for a pattern which is
/// longer than the driver interface has room for.
pub fn pattern_length(pattern: Option<&U16Str>) -> (length: Option<i16>)
    ensures
        units_of_pattern(pattern) <= i16::MAX ==> length == Some(units_of_pattern(pattern) as i16),
        units_of_pattern(pattern) > i16::MAX ==> length is None,
{
    match pattern {
        Some(text) => {
            let n = len(text);
            if n <= i16::MAX as usize {
                Some(n as i16)
            } else {
                None
            }
        },
        None => Some(0),
    }
}

} // verus!
