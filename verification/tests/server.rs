use tinyserve::handler::handle_request;
use tinyserve::handler::respond;
use tinyserve::handler::Resolution;
use tinyserve::parse::parse_request;
use tinyserve::parse::target_of;
use tinyserve::response::bad_request_response;
use tinyserve::response::decimal_digits;
use tinyserve::response::not_found_response;
use tinyserve::supervisor::plan_workers;
use tinyserve::supervisor::WorkerPlan;

fn ok_bytes(content_type: &str, body: &[u8]) -> Vec<u8> {
    let mut out = format!(
        "HTTP/1.1 200 OK\nContent-Type: {}\nContent-Length: {}\n\n",
        content_type,
        body.len()
    )
    .into_bytes();
    out.extend_from_slice(body);
    out
}

const NOT_FOUND: &str = "HTTP/1.1 404 NOT FOUND\nContent-Type: text/plain\nContent-Length: 0\n";
const BAD_REQUEST: &str = "HTTP/1.1 400 BAD REQUEST\nContent-Type: text/plain\nContent-Length: 0\n";

#[test]
fn serves_existing_file_exact_bytes() {
    let out = handle_request(
        "GET /index.html HTTP/1.1",
        Resolution::FileData("hi".as_bytes().to_vec()),
    );
    assert_eq!(out, ok_bytes("text/html", "hi".as_bytes()));
}

#[test]
fn css_extension_maps_to_text_css() {
    let out = handle_request(
        "GET /style.css HTTP/1.1",
        Resolution::FileData("a{}".as_bytes().to_vec()),
    );
    assert_eq!(out, ok_bytes("text/css", "a{}".as_bytes()));
}

#[test]
fn unknown_extension_defaults_to_octet_stream() {
    let out = handle_request(
        "GET /README HTTP/1.1",
        Resolution::FileData(vec![1u8, 2, 3]),
    );
    assert_eq!(out, ok_bytes("application/octet-stream", &[1u8, 2, 3]));
}

#[test]
fn missing_path_gets_exact_not_found() {
    let out = handle_request("GET /absent.txt HTTP/1.1", Resolution::NotFound);
    assert_eq!(out, NOT_FOUND.as_bytes().to_vec());
}

#[test]
fn not_found_response_is_exact() {
    assert_eq!(not_found_response(), NOT_FOUND.as_bytes().to_vec());
}

#[test]
fn non_get_method_gets_bad_request() {
    let out = handle_request(
        "POST /x HTTP/1.1",
        Resolution::FileData("ignored".as_bytes().to_vec()),
    );
    assert_eq!(out, BAD_REQUEST.as_bytes().to_vec());
}

#[test]
fn missing_space_after_method_gets_bad_request() {
    assert_eq!(
        handle_request("GET /nospace", Resolution::NotFound),
        BAD_REQUEST.as_bytes().to_vec()
    );
    assert_eq!(
        handle_request("GET", Resolution::NotFound),
        BAD_REQUEST.as_bytes().to_vec()
    );
    assert_eq!(
        handle_request("", Resolution::NotFound),
        BAD_REQUEST.as_bytes().to_vec()
    );
}

#[test]
fn bad_request_response_is_exact() {
    assert_eq!(bad_request_response(), BAD_REQUEST.as_bytes().to_vec());
}

#[test]
fn root_listing_has_one_anchor_per_entry() {
    let entries = vec!["./a.txt".to_string(), "./sub".to_string()];
    let out = handle_request("GET / HTTP/1.1", Resolution::Directory(entries));
    let body = "\n        <html>\n        <body>\n        \
                <a href='./a.txt'>./a.txt</a><br/><a href='./sub'>./sub</a><br/>\
                \n        </body>\n        </html>\n        ";
    assert_eq!(out, ok_bytes("text/html", body.as_bytes()));
}

#[test]
fn empty_directory_lists_no_anchors() {
    let out = handle_request("GET / HTTP/1.1", Resolution::Directory(vec![]));
    let body = "\n        <html>\n        <body>\n        \
                \n        </body>\n        </html>\n        ";
    assert_eq!(out, ok_bytes("text/html", body.as_bytes()));
}

#[test]
fn repeated_request_yields_identical_bytes() {
    let first = handle_request(
        "GET /page.html HTTP/1.1",
        Resolution::FileData("same".as_bytes().to_vec()),
    );
    let second = handle_request(
        "GET /page.html HTTP/1.1",
        Resolution::FileData("same".as_bytes().to_vec()),
    );
    assert_eq!(first, second);
}

#[test]
fn distinct_requests_get_their_own_bodies() {
    let reqs = ["GET /a.txt x", "GET /b.txt x", "GET /c.txt x"];
    let bodies = ["alpha", "beta", "gamma"];
    for (req, body) in reqs.iter().zip(bodies.iter()) {
        let out = handle_request(req, Resolution::FileData(body.as_bytes().to_vec()));
        assert_eq!(out, ok_bytes("text/plain", body.as_bytes()));
        assert!(out.ends_with(body.as_bytes()));
    }
}

#[test]
fn parse_request_extracts_verbatim_path() {
    assert_eq!(
        parse_request("GET /p HTTP/1.1"),
        Some("/p".to_string())
    );
    assert_eq!(
        parse_request("GET /file?x=1 HTTP/1.1"),
        Some("/file?x=1".to_string())
    );
    assert_eq!(parse_request("GET  x"), Some("".to_string()));
    assert_eq!(parse_request("PUT /p HTTP/1.1"), None);
    assert_eq!(parse_request("GET /p"), None);
}

#[test]
fn target_of_maps_root_to_current_directory() {
    assert_eq!(target_of("/"), ".".to_string());
    assert_eq!(target_of("/abc/d.txt"), "abc/d.txt".to_string());
    assert_eq!(target_of(""), "".to_string());
}

#[test]
fn empty_path_resolves_like_any_other_target() {
    let out = handle_request("GET  x", Resolution::NotFound);
    assert_eq!(out, NOT_FOUND.as_bytes().to_vec());
}

#[test]
fn content_length_counts_body_bytes_exactly() {
    let body = vec![b'x'; 1234];
    let out = respond("big.bin", Resolution::FileData(body.clone()));
    let text = String::from_utf8_lossy(&out);
    assert!(text.contains("\nContent-Length: 1234\n\n"));
    assert!(out.ends_with(&body));
}

#[test]
fn worker_plan_forks_only_with_multiple_units() {
    assert_eq!(plan_workers(0), WorkerPlan::RunInProcess);
    assert_eq!(plan_workers(1), WorkerPlan::RunInProcess);
    assert_eq!(plan_workers(4), WorkerPlan::Fork(4));
}

#[test]
fn decimal_digits_render_exactly() {
    assert_eq!(decimal_digits(0), "0".as_bytes().to_vec());
    assert_eq!(decimal_digits(7), "7".as_bytes().to_vec());
    assert_eq!(decimal_digits(10240), "10240".as_bytes().to_vec());
    assert_eq!(decimal_digits(usize::MAX), usize::MAX.to_string().into_bytes());
}
