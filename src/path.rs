//! Paths as text: decoding a path's bytes, and its final component.

use vstd::prelude::*;
use vstd::utf8::{decode_utf8, valid_utf8};

verus! {

/// The final component of a path, as `std::path::Path::file_name` finds it:
/// `None` where the path ends in `..` or has no normal component.
pub uninterp spec fn file_name_of(path: Seq<char>) -> Option<Seq<char>>;

/// Relies on `std::str::from_utf8`: it succeeds exactly on valid UTF-8, and
/// then holds the characters that the bytes encode.
#[verifier::external_body]
fn utf8_text(bytes: &[u8]) -> (r: Option<&str>)
    ensures
        r is Some <==> valid_utf8(bytes@),
        r matches Some(s) ==> s@ == decode_utf8(bytes@),
{
    std::str::from_utf8(bytes).ok()
}

/// Relies on `std::path::Path::file_name`: the final component of the path.
#[verifier::external_body]
fn file_name(path: &str) -> (r: Option<String>)
    ensures
        r matches Some(s) ==> file_name_of(path@) == Some(s@),
        r is None ==> file_name_of(path@) is None,
{
    std::path::Path::new(path).file_name().map(|n| n.to_string_lossy().into_owned())
}

/// The text of a path given by its bytes; empty where they are not UTF-8.
pub fn must_to_string(path: &[u8]) -> (r: String)
    ensures
        valid_utf8(path@) ==> r@ == decode_utf8(path@),
        !valid_utf8(path@) ==> r@ == Seq::<char>::empty(),
{
    match utf8_text(path) {
        Some(s) => s.to_owned(),
        None => String::new(),
    }
}

/// The final component of a path, which must have one.
pub fn must_get_filename(path: &str) -> (r: String)
    requires
        file_name_of(path@) is Some,
    ensures
        file_name_of(path@) == Some(r@),
{
    match file_name(path) {
        Some(s) => s,
        None => String::new(),
    }
}

/// The final component of a path; `None` where it has none.
pub fn get_filename(path: &str) -> (r: Option<String>)
    ensures
        r matches Some(s) ==> file_name_of(path@) == Some(s@),
        r is None <==> file_name_of(path@) is None,
{
    if file_name(path).is_some() {
        Some(must_get_filename(path))
    } else {
        None
    }
}

} // verus!
