//! Field coercion helpers for the legacy generation: pull text, integer and
//! date values out of a semi-structured document tree, distinguishing
//! "required, error if absent or malformed" from "optional, absent if
//! absent or malformed".

use vstd::prelude::*;

use crate::data::Date;
use crate::error::{TvdbError, TvdbResult};
use crate::parse::{date_spec, dateify, intify, parse_u32_spec};
use crate::xml::{find_child, XmlNode};

verus! {

/// What `require_text` yields: the named child's text, present and
/// non-empty.
pub open spec fn spec_require_text(n: XmlNode, field: Seq<char>) -> Option<Seq<char>> {
    match find_child(n, field) {
        Option::Some(c) => if c.text@.len() > 0 {
            Some(c.text@)
        } else {
            None
        },
        Option::None => None,
    }
}

/// What `optional_text` yields: the named child's text, absent when there
/// is no such child.
pub open spec fn spec_optional_text(n: XmlNode, field: Seq<char>) -> Option<Seq<char>> {
    match find_child(n, field) {
        Option::Some(c) => Some(c.text@),
        Option::None => None,
    }
}

/// What the integer helpers yield: the named child's text parsed as an
/// unsigned integer, absent when the child is absent or its text is
/// malformed.
pub open spec fn spec_optional_int(n: XmlNode, field: Seq<char>) -> Option<u32> {
    match find_child(n, field) {
        Option::Some(c) => parse_u32_spec(c.text@),
        Option::None => None,
    }
}

/// What `optional_date` yields: the named child's text parsed as a
/// `YYYY-MM-DD` date; malformed dates are swallowed, not surfaced.
pub open spec fn spec_optional_date(n: XmlNode, field: Seq<char>) -> Option<Date> {
    match find_child(n, field) {
        Option::Some(c) => date_spec(c.text@),
        Option::None => None,
    }
}

/// The reason reported when a required element is absent or empty.
pub open spec fn missing_element_reason(field: Seq<char>) -> Seq<char> {
    "Missing or empty element: "@ + field
}

fn missing_element_error(field: &str) -> (r: TvdbError)
    ensures
        r matches TvdbError::DataError { reason } && reason@ == missing_element_reason(field@),
{
    let mut reason = "Missing or empty element: ".to_owned();
    reason.append(field);
    TvdbError::DataError { reason }
}

/// The text of the named child element; fails with a `DataError` naming the
/// element when it is absent or empty.
pub fn require_text(node: &XmlNode, field: &str) -> (r: TvdbResult<String>)
    ensures
        r is Ok <==> spec_require_text(*node, field@) is Some,
        r matches Ok(s) ==> Some(s@) == spec_require_text(*node, field@),
        r matches Err(e) ==> e matches TvdbError::DataError { reason }
            && reason@ == missing_element_reason(field@),
{
    match node.child(field) {
        Option::Some(c) => {
            if c.text.as_str().unicode_len() > 0 {
                Ok(c.text.clone())
            } else {
                Err(missing_element_error(field))
            }
        },
        Option::None => Err(missing_element_error(field)),
    }
}

/// The text of the named child element, or an absent value when there is no
/// such element; never fails.
pub fn optional_text(node: &XmlNode, field: &str) -> (r: Option<String>)
    ensures
        match r {
            Option::Some(s) => Some(s@) == spec_optional_text(*node, field@),
            Option::None => spec_optional_text(*node, field@) is None,
        },
{
    match node.child(field) {
        Option::Some(c) => Some(c.text.clone()),
        Option::None => None,
    }
}

/// The named child's text parsed as an unsigned integer; fails with a
/// `DataError` on absence or non-numeric text.
pub fn require_int(node: &XmlNode, field: &str) -> (r: TvdbResult<u32>)
    ensures
        r is Ok <==> spec_optional_int(*node, field@) is Some,
        r matches Ok(v) ==> Some(v) == spec_optional_int(*node, field@),
        r matches Err(e) ==> e matches TvdbError::DataError { .. },
{
    match node.child(field) {
        Option::Some(c) => intify(c.text.as_str()),
        Option::None => Err(missing_element_error(field)),
    }
}

/// The named child's text parsed as an unsigned integer; absent on absence
/// or non-numeric text, never fails.
pub fn optional_int(node: &XmlNode, field: &str) -> (r: Option<u32>)
    ensures
        r == spec_optional_int(*node, field@),
{
    match node.child(field) {
        Option::Some(c) => match intify(c.text.as_str()) {
            Ok(v) => Some(v),
            Err(_) => None,
        },
        Option::None => None,
    }
}

/// The named child's text parsed as a `YYYY-MM-DD` date; absent on absence
/// or malformed text, never fails.
pub fn optional_date(node: &XmlNode, field: &str) -> (r: Option<Date>)
    ensures
        r == spec_optional_date(*node, field@),
{
    match node.child(field) {
        Option::Some(c) => match dateify(c.text.as_str()) {
            Ok(d) => Some(d),
            Err(_) => None,
        },
        Option::None => None,
    }
}

} // verus!
