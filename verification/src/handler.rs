//! Orchestration of one connection: parse, resolve, render.
//!
//! The surrounding binary reads the request bytes, decodes them (dropping
//! the connection when decoding fails), parses the request line with
//! [`crate::parse::parse_request`], asks the file system about the target
//! from [`crate::parse::target_of`], and hands the answer back here as a
//! [`Resolution`]; [`handle_request`] then yields the exact response bytes
//! to write.

use vstd::prelude::*;
use vstd::string::StringSliceAdditionalSpecFns;
use vstd::utf8::encode_utf8;

use crate::listing::build_listing_body;
use crate::listing::listing_body_bytes;
use crate::mime::guess_mime;
use crate::mime::mime_essence_of;
use crate::parse::parse_request;
use crate::parse::spec_parse;
use crate::parse::spec_target;
use crate::parse::target_of;
use crate::response::bad_request_bytes;
use crate::response::bad_request_response;
use crate::response::build_ok_response;
use crate::response::not_found_bytes;
use crate::response::not_found_response;
use crate::response::ok_response;

verus! {

/// What the file system says about a request's target: a directory with
/// its immediate entries, in enumeration order; a readable file with its
/// contents; or nothing that can be opened or read.
pub enum Resolution {
    Directory(Vec<String>),
    FileData(Vec<u8>),
    NotFound,
}

/// The mathematical shape of a [`Resolution`]: entry paths as character
/// sequences, file contents as a byte sequence.
pub enum ResolutionView {
    Directory(Seq<Seq<char>>),
    FileData(Seq<u8>),
    NotFound,
}

impl View for Resolution {
    type V = ResolutionView;

    open spec fn view(&self) -> ResolutionView {
        match self {
            Resolution::Directory(entries) => ResolutionView::Directory(entries.deep_view()),
            Resolution::FileData(bytes) => ResolutionView::FileData(bytes@),
            Resolution::NotFound => ResolutionView::NotFound,
        }
    }
}

/// The response owed to a request whose target `target` resolved as `r`: a
/// successful HTML listing for a directory, a successful response carrying
/// the file's bytes under the MIME type guessed from the target path, or
/// the one exact 404 response when the target yields neither.
pub open spec fn response_for(target: Seq<char>, r: ResolutionView) -> Seq<u8> {
    match r {
        ResolutionView::Directory(entries) => ok_response(
            "text/html".spec_bytes(),
            listing_body_bytes(entries),
        ),
        ResolutionView::FileData(bytes) => ok_response(
            encode_utf8(mime_essence_of(target)),
            bytes,
        ),
        ResolutionView::NotFound => not_found_bytes(),
    }
}

/// Renders the response for the target `target`, which the file system
/// resolved as `r`.
pub fn respond(target: &str, r: Resolution) -> (out: Vec<u8>)
    ensures
        out@ == response_for(target@, r@),
{
    match r {
        Resolution::Directory(entries) => {
            let body = build_listing_body(&entries);
            build_ok_response("text/html", body)
        },
        Resolution::FileData(bytes) => {
            let mime = guess_mime(target);
            build_ok_response(mime.as_str(), bytes)
        },
        Resolution::NotFound => not_found_response(),
    }
}

/// The complete answer for one request line: the exact 400 response when
/// the line does not parse, and otherwise the response rendered for the
/// parsed path's target as the file system resolved it.
pub open spec fn spec_handle(req: Seq<char>, r: ResolutionView) -> Seq<u8> {
    match spec_parse(req) {
        Some(url) => response_for(spec_target(url), r),
        None => bad_request_bytes(),
    }
}

/// Builds the full response for the request line `req`, where `lookup` is
/// the file system's answer for the target of the path parsed out of `req`
/// (the target that `parse_request` followed by `target_of` gives). When
/// `req` is malformed, `lookup` plays no part in the answer.
pub fn handle_request(req: &str, lookup: Resolution) -> (out: Vec<u8>)
    ensures
        out@ == spec_handle(req@, lookup@),
{
    match parse_request(req) {
        Some(url) => {
            let target = target_of(url.as_str());
            respond(target.as_str(), lookup)
        },
        None => bad_request_response(),
    }
}

/// Serving is deterministic: two responses computed for the same request
/// line against an unchanged file-system answer are byte-identical.
pub proof fn lemma_handle_deterministic(
    req: Seq<char>,
    r: ResolutionView,
    out1: Seq<u8>,
    out2: Seq<u8>,
)
    requires
        out1 == spec_handle(req, r),
        out2 == spec_handle(req, r),
    ensures
        out1 == out2,
{
}

/// Every target that resolves to nothing is answered with the one exact
/// 404 response, whatever the target path was.
pub proof fn lemma_not_found_uniform(target: Seq<char>)
    ensures
        response_for(target, ResolutionView::NotFound) == not_found_bytes(),
{
}

/// A well-formed request answered from a file carries the file's bytes
/// verbatim: the response ends with exactly the file's contents, directly
/// after the header block.
pub proof fn lemma_file_response_carries_contents(req: Seq<char>, bytes: Seq<u8>)
    requires
        spec_parse(req) is Some,
    ensures
        spec_handle(req, ResolutionView::FileData(bytes)).len() >= bytes.len(),
        spec_handle(req, ResolutionView::FileData(bytes)).skip(
            spec_handle(req, ResolutionView::FileData(bytes)).len() - bytes.len(),
        ) == bytes,
{
    let target = spec_target(spec_parse(req).unwrap());
    crate::response::lemma_ok_response_carries_body(
        encode_utf8(mime_essence_of(target)),
        bytes,
    );
}

/// Every malformed request line is answered with the one exact 400
/// response, whatever the file system holds.
pub proof fn lemma_malformed_gets_bad_request(req: Seq<char>, r: ResolutionView)
    requires
        spec_parse(req) is None,
    ensures
        spec_handle(req, r) == bad_request_bytes(),
{
}

} // verus!
