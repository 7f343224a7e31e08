//! The fixed timestamp dialect `YYYY-MM-DDTHH:MM:SS.ffffffZ`, for the fields
//! that use it in place of general RFC 3339.
use vstd::prelude::*;
use crate::time::{fixed_utc_parse, fixed_utc_render, Timestamp};

verus! {

/// Writes an instant in the fixed pattern; `None` where it is out of range.
pub fn serialize(date: &Timestamp) -> (r: Option<String>)
    ensures
        r matches Some(s) ==> fixed_utc_render(*date) == Some(s@),
        r is None ==> fixed_utc_render(*date) is None,
{
    date.to_fixed_utc()
}

/// Reads an instant in the fixed pattern; `None` where the text does not match it.
pub fn deserialize(text: &str) -> (r: Option<Timestamp>)
    ensures
        r == fixed_utc_parse(text@),
{
    Timestamp::parse_fixed_utc(text)
}

} // verus!
