//! The MIME type guessed for a file target.

use vstd::prelude::*;

verus! {

/// The essence string (type and subtype, such as `text/html`) of the MIME
/// type guessed from a path's extension. The guess consults a fixed
/// extension table and no file contents, so it is a function of the path
/// characters alone; a path whose extension has no known mapping yields the
/// generic octet-stream type.
pub uninterp spec fn mime_essence_of(path: Seq<char>) -> Seq<char>;

/// Relies on `mime_guess::from_path` and `mime::Mime::essence_str`:
/// `from_path` looks the path's extension up in a static table and performs
/// no disk access, so the result depends on the path characters alone;
/// `essence_str` renders the guessed type without its parameters.
#[verifier::external_body]
pub(crate) fn guess_mime(path: &str) -> (r: String)
    ensures
        r@ == mime_essence_of(path@),
{
    mime_guess::from_path(path).first_or_octet_stream().essence_str().to_string()
}

} // verus!
