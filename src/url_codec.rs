//! The URL field codec: a URL is written as its canonical text, and read back
//! only if it is a well-formed absolute URL.
use vstd::prelude::*;
use crate::codec::{decode_url, url_canonical};
use crate::text::holds_char;

verus! {

/// Writes a URL held in canonical form: its text, as is.
pub fn serialize(url: &str) -> (r: String)
    ensures
        r@ == url@,
{
    url.to_owned()
}

/// Reads a URL field; `None` where the text is no well-formed absolute URL.
pub fn deserialize(text: &str) -> (r: Option<String>)
    ensures
        r matches Some(c) ==> url_canonical(text@) == Some(c@) && holds_char(c@, ':'),
        r is None ==> url_canonical(text@) is None,
{
    decode_url(text)
}

} // verus!
