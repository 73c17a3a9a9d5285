//! Byte-exact rendering of HTTP responses.
//!
//! A response is a status line, a `Content-Type` and a `Content-Length`
//! header line, each terminated by a single newline character, then a blank
//! line and the body for successful responses. The error responses carry no
//! body and end directly after their `Content-Length: 0` line.

use vstd::prelude::*;
use vstd::string::StrSliceExecFns;
use vstd::string::StringSliceAdditionalSpecFns;

verus! {

/// The decimal digit character, as a byte, for a value below ten.
pub open spec fn digit_byte(d: nat) -> u8 {
    (0x30 + d) as u8
}

/// The shortest decimal rendering of `n`, as ASCII digit bytes.
pub open spec fn decimal_bytes(n: nat) -> Seq<u8>
    decreases n,
{
    if n < 10 {
        seq![digit_byte(n)]
    } else {
        decimal_bytes(n / 10) + seq![digit_byte(n % 10)]
    }
}

/// Renders `n` in decimal, most significant digit first.
pub fn decimal_digits(n: usize) -> (out: Vec<u8>)
    ensures
        out@ == decimal_bytes(n as nat),
{
    let mut out: Vec<u8> = Vec::new();
    let mut m: usize = n;
    loop
        invariant_except_break
            (out@.len() == 0 && m == n) || (m > 0 && decimal_bytes(n as nat) == decimal_bytes(
                m as nat,
            ) + out@),
        ensures
            out@ == decimal_bytes(n as nat),
        decreases m,
    {
        let d: u8 = 0x30 + (m % 10) as u8;
        proof {
            assert(d == digit_byte((m % 10) as nat));
        }
        out.insert(0, d);
        proof {
            if out@.len() == 1 && m == n {
                if m < 10 {
                    assert(decimal_bytes(n as nat) =~= out@);
                } else {
                    assert(decimal_bytes(n as nat) =~= decimal_bytes((m / 10) as nat) + out@);
                }
            } else {
                if m < 10 {
                    assert(decimal_bytes(m as nat) =~= seq![digit_byte(m as nat)]);
                    assert(decimal_bytes(n as nat) =~= out@);
                } else {
                    assert(decimal_bytes(m as nat) =~= decimal_bytes((m / 10) as nat) + seq![
                        digit_byte((m % 10) as nat),
                    ]);
                    assert(decimal_bytes(n as nat) =~= decimal_bytes((m / 10) as nat) + out@);
                }
            }
        }
        m = m / 10;
        if m == 0 {
            break ;
        }
    }
    out
}

/// Appends the UTF-8 bytes of `s` to `out`.
pub fn push_str_bytes(out: &mut Vec<u8>, s: &str)
    ensures
        final(out)@ == old(out)@ + s.spec_bytes(),
{
    let mut bytes = s.as_bytes_vec();
    out.append(&mut bytes);
}

/// The exact bytes of a successful response: a 200 status line, the
/// `Content-Type` header carrying `content_type`, a `Content-Length` header
/// whose value is the byte length of `body`, a blank line, then the body
/// verbatim.
pub open spec fn ok_response(content_type: Seq<u8>, body: Seq<u8>) -> Seq<u8> {
    "HTTP/1.1 200 OK\nContent-Type: ".spec_bytes() + content_type
        + "\nContent-Length: ".spec_bytes() + decimal_bytes(body.len()) + "\n\n".spec_bytes()
        + body
}

/// Renders the successful response carrying `body` under `content_type`.
pub fn build_ok_response(content_type: &str, body: Vec<u8>) -> (out: Vec<u8>)
    ensures
        out@ == ok_response(content_type.spec_bytes(), body@),
{
    let mut out: Vec<u8> = Vec::new();
    push_str_bytes(&mut out, "HTTP/1.1 200 OK\nContent-Type: ");
    push_str_bytes(&mut out, content_type);
    push_str_bytes(&mut out, "\nContent-Length: ");
    let mut digits = decimal_digits(body.len());
    out.append(&mut digits);
    push_str_bytes(&mut out, "\n\n");
    let mut tail = body;
    out.append(&mut tail);
    proof {
        assert(out@ =~= ok_response(content_type.spec_bytes(), body@));
    }
    out
}

/// The exact bytes answering a request whose target resolves to neither a
/// readable file nor an enumerable directory: a 404 status line, the two
/// header lines, and no body.
pub open spec fn not_found_bytes() -> Seq<u8> {
    "HTTP/1.1 404 NOT FOUND\nContent-Type: text/plain\nContent-Length: 0\n".spec_bytes()
}

/// Renders the response for a target that cannot be served.
pub fn not_found_response() -> (out: Vec<u8>)
    ensures
        out@ == not_found_bytes(),
{
    "HTTP/1.1 404 NOT FOUND\nContent-Type: text/plain\nContent-Length: 0\n".as_bytes_vec()
}

/// The exact bytes answering a request line that is not a well-formed GET:
/// a 400 status line, the two header lines, and no body.
pub open spec fn bad_request_bytes() -> Seq<u8> {
    "HTTP/1.1 400 BAD REQUEST\nContent-Type: text/plain\nContent-Length: 0\n".spec_bytes()
}

/// Renders the response for a malformed request line.
pub fn bad_request_response() -> (out: Vec<u8>)
    ensures
        out@ == bad_request_bytes(),
{
    "HTTP/1.1 400 BAD REQUEST\nContent-Type: text/plain\nContent-Length: 0\n".as_bytes_vec()
}

/// A successful response carries its body verbatim: the response bytes end
/// with the body, directly after the header block.
pub proof fn lemma_ok_response_carries_body(content_type: Seq<u8>, body: Seq<u8>)
    ensures
        ok_response(content_type, body).len() >= body.len(),
        ok_response(content_type, body).skip(
            ok_response(content_type, body).len() - body.len(),
        ) == body,
{
    let resp = ok_response(content_type, body);
    assert(resp.skip(resp.len() - body.len()) =~= body);
}

} // verus!
