//! Normalisation of operator-supplied text fields.
use vstd::prelude::*;
use vstd::string::*;

verus! {

/// The text with leading and trailing whitespace removed.
pub fn trim(s: &str) -> (r: &str)
    ensures
        r@ == trim_of(s@),
{
    trim_str(s)
}

/// The text left once leading and trailing whitespace is removed.
pub uninterp spec fn trim_of(s: Seq<char>) -> Seq<char>;

/// Relies on `str::trim`: leading and trailing whitespace removed, leaving a
/// part of the input that depends on the input alone.
#[verifier::external_body]
fn trim_str(s: &str) -> (r: &str)
    ensures
        r@ == trim_of(s@),
        r@.len() <= s@.len(),
{
    s.trim()
}

/// The trimmed text, or none when nothing but whitespace is there.
pub open spec fn present(s: Seq<char>) -> Option<Seq<char>> {
    if trim_of(s).len() == 0 {
        None
    } else {
        Some(trim_of(s))
    }
}

pub open spec fn opt_text(o: Option<String>) -> Option<Seq<char>> {
    match o {
        Some(s) => Some(s@),
        None => None,
    }
}

/// True when the text holds nothing but whitespace.
pub fn is_blank(s: &str) -> (r: bool)
    ensures
        r == (trim_of(s@).len() == 0),
{
    trim_str(s).is_empty()
}

/// The trimmed text of an optional field; blank counts as absent.
pub fn non_blank(value: &Option<String>) -> (r: Option<String>)
    ensures
        opt_text(r) == match value {
            Some(v) => present(v@),
            None => None,
        },
{
    match value {
        Some(v) => {
            let t = trim_str(v.as_str());
            if t.is_empty() {
                None
            } else {
                Some(t.to_owned())
            }
        },
        None => None,
    }
}

/// Whether two texts are the same sequence of characters.
pub fn same_text(a: &str, b: &str) -> (r: bool)
    ensures
        r == (a@ == b@),
{
    String::from_str(a) == String::from_str(b)
}

} // verus!
