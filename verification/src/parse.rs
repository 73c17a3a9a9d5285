//! Parsing of one HTTP request line.
//!
//! Only a single well-formed GET line is recognised: the literal method
//! prefix `GET`, one delimiter character, the requested path, and a space
//! ending the path. Everything else is malformed and answered with the 400
//! response. The path is taken verbatim: no URL decoding and no
//! query-string stripping.

use vstd::prelude::*;
use vstd::string::StrSliceExecFns;

verus! {

/// The index of the first space character of `s` at or after `from`, if
/// there is one.
pub open spec fn first_space_at(s: Seq<char>, from: int) -> Option<int>
    decreases s.len() - from,
{
    if from < 0 || from >= s.len() {
        None
    } else if s[from] == ' ' {
        Some(from)
    } else {
        first_space_at(s, from + 1)
    }
}

/// The path parsed out of the request line `req`, when `req` is well
/// formed: it begins with the literal prefix `GET`, and a space follows at
/// or after the fifth character; the path is everything between the
/// character following the method token and that space. A line without the
/// prefix or without such a space parses to nothing.
pub open spec fn spec_parse(req: Seq<char>) -> Option<Seq<char>> {
    if req.len() >= 3 && req[0] == 'G' && req[1] == 'E' && req[2] == 'T' {
        match first_space_at(req, 4) {
            Some(i) => Some(req.subrange(4, i)),
            None => None,
        }
    } else {
        None
    }
}

/// Extracts the request path from the request line `req`, or nothing when
/// the line is malformed.
pub fn parse_request(req: &str) -> (r: Option<String>)
    ensures
        match r {
            Some(path) => spec_parse(req@) == Some(path@),
            None => spec_parse(req@) is None,
        },
{
    let n = req.unicode_len();
    if n < 3 {
        return None;
    }
    if !(req.get_char(0) == 'G' && req.get_char(1) == 'E' && req.get_char(2) == 'T') {
        return None;
    }
    if n <= 4 {
        return None;
    }
    let mut i: usize = 4;
    while i < n
        invariant
            n == req@.len(),
            4 <= i <= n,
            req@[0] == 'G' && req@[1] == 'E' && req@[2] == 'T',
            first_space_at(req@, 4) == first_space_at(req@, i as int),
        decreases n - i,
    {
        if req.get_char(i) == ' ' {
            proof {
                assert(first_space_at(req@, i as int) == Some(i as int));
            }
            let path = req.substring_char(4, i).to_owned();
            return Some(path);
        }
        i += 1;
    }
    None
}

/// The file-system target of a parsed request path: the root path denotes
/// the current directory, and any other path is taken relative to it by
/// dropping its leading character (in a well-formed request, a slash).
pub open spec fn spec_target(url: Seq<char>) -> Seq<char> {
    if url == seq!['/'] {
        seq!['.']
    } else if url.len() == 0 {
        Seq::empty()
    } else {
        url.subrange(1, url.len() as int)
    }
}

/// Turns a parsed request path into the file-system target to resolve.
pub fn target_of(url: &str) -> (t: String)
    ensures
        t@ == spec_target(url@),
{
    let n = url.unicode_len();
    if n == 1 && url.get_char(0) == '/' {
        proof {
            reveal_strlit(".");
            assert(url@ =~= seq!['/']);
        }
        String::from_str(".")
    } else if n == 0 {
        String::new()
    } else {
        url.substring_char(1, n).to_owned()
    }
}

} // verus!
