//! Rendering of a directory listing as a small HTML document.
//!
//! Every immediate entry of the listed directory becomes one anchor line
//! whose href and link text are both the entry's path, in the order the
//! entries were enumerated.

use vstd::prelude::*;
use vstd::string::StringSliceAdditionalSpecFns;
use vstd::utf8::encode_utf8;

use crate::response::push_str_bytes;

verus! {

/// The text standing before the anchor lines in the listing document.
pub open spec fn listing_prefix() -> Seq<u8> {
    "\n        <html>\n        <body>\n        ".spec_bytes()
}

/// The text standing after the anchor lines in the listing document.
pub open spec fn listing_suffix() -> Seq<u8> {
    "\n        </body>\n        </html>\n        ".spec_bytes()
}

/// One listing line: an anchor whose href and link text are both the
/// entry's path, followed by a line break.
pub open spec fn anchor_bytes(entry: Seq<char>) -> Seq<u8> {
    "<a href='".spec_bytes() + encode_utf8(entry) + "'>".spec_bytes() + encode_utf8(entry)
        + "</a><br/>".spec_bytes()
}

/// The anchor lines of all entries, in order.
pub open spec fn anchors_bytes(entries: Seq<Seq<char>>) -> Seq<u8>
    decreases entries.len(),
{
    if entries.len() == 0 {
        Seq::empty()
    } else {
        anchors_bytes(entries.drop_last()) + anchor_bytes(entries.last())
    }
}

/// The complete HTML document listing a directory: one anchor line per
/// entry, between the fixed document frame.
pub open spec fn listing_body_bytes(entries: Seq<Seq<char>>) -> Seq<u8> {
    listing_prefix() + anchors_bytes(entries) + listing_suffix()
}

/// Each entry contributes exactly its own anchor line: extending the entry
/// sequence by one entry extends the rendered anchors by that entry's
/// anchor, and by nothing else.
pub proof fn lemma_anchors_one_per_entry(entries: Seq<Seq<char>>, entry: Seq<char>)
    ensures
        anchors_bytes(entries.push(entry)) == anchors_bytes(entries) + anchor_bytes(entry),
{
    assert(entries.push(entry).drop_last() =~= entries);
    assert(entries.push(entry).last() == entry);
}

/// Renders the listing document for the given directory entries.
pub fn build_listing_body(entries: &Vec<String>) -> (out: Vec<u8>)
    ensures
        out@ == listing_body_bytes(entries.deep_view()),
{
    let mut out: Vec<u8> = Vec::new();
    push_str_bytes(&mut out, "\n        <html>\n        <body>\n        ");
    let mut k: usize = 0;
    while k < entries.len()
        invariant
            k <= entries.len(),
            out@ == listing_prefix() + anchors_bytes(entries.deep_view().take(k as int)),
        decreases entries.len() - k,
    {
        let entry = &entries[k];
        push_str_bytes(&mut out, "<a href='");
        push_str_bytes(&mut out, entry.as_str());
        push_str_bytes(&mut out, "'>");
        push_str_bytes(&mut out, entry.as_str());
        push_str_bytes(&mut out, "</a><br/>");
        proof {
            let views = entries.deep_view();
            assert(views.take(k as int).push(views[k as int]) =~= views.take(k + 1));
            lemma_anchors_one_per_entry(views.take(k as int), views[k as int]);
            assert(views[k as int] == entries@[k as int]@);
            assert(out@ =~= listing_prefix() + anchors_bytes(views.take(k + 1)));
        }
        k += 1;
    }
    proof {
        assert(entries.deep_view().take(entries@.len() as int) =~= entries.deep_view());
    }
    push_str_bytes(&mut out, "\n        </body>\n        </html>\n        ");
    out
}

} // verus!
