//! HTTP text: headers, the bearer key, allowed origins, and response framing.
use vstd::prelude::*;
use vstd::utf8::encode_utf8;
use crate::text::{chars_of, decimal, eq_ignore_ascii_case, eq_ignore_ascii_case_range, find_char, index_of, line_ranges, lines, matches_at, push_decimal, starts_with, string_from_range, trim, trim_range};

verus! {

/// The value of header `name` on `line`: the line has a `:`, and the part
/// before it, trimmed, is `name` ignoring ASCII case; the value is the rest,
/// trimmed.
pub open spec fn header_in_line(line: Seq<char>, name: Seq<char>) -> Option<Seq<char>> {
    let k = index_of(line, ':');
    if k < line.len() && eq_ignore_ascii_case(trim(line.take(k)), name) {
        Some(trim(line.skip(k + 1)))
    } else {
        None
    }
}

/// The value of header `name` on the first of `ls` that has it.
pub open spec fn header_in_lines(ls: Seq<Seq<char>>, name: Seq<char>) -> Option<Seq<char>>
    decreases ls.len(),
{
    if ls.len() == 0 {
        None
    } else {
        match header_in_line(ls[0], name) {
            Some(v) => Some(v),
            None => header_in_lines(ls.drop_first(), name),
        }
    }
}

/// The value of header `name` in a raw request: the first line that carries it.
pub open spec fn header_spec(raw: Seq<char>, name: Seq<char>) -> Option<Seq<char>> {
    header_in_lines(lines(raw), name)
}

/// The value of header `name` in `raw_req`, if any line carries it.
pub fn header_value(raw_req: &str, name: &str) -> (r: Option<String>)
    ensures
        match r {
            Some(s) => header_spec(raw_req@, name@) == Some(s@),
            None => header_spec(raw_req@, name@) is None,
        },
{
    let v = chars_of(raw_req);
    let w = chars_of(name);
    let ranges = line_ranges(&v);
    let ghost ls = lines(v@);
    let mut i: usize = 0;
    assert(ls.skip(0) == ls);
    while i < ranges.len()
        invariant
            v@ == raw_req@,
            w@ == name@,
            ls == lines(v@),
            ranges@.len() == ls.len(),
            forall|j: int|
                0 <= j < ranges@.len() ==> #[trigger] ranges@[j].0 <= ranges@[j].1 <= v@.len()
                    && v@.subrange(ranges@[j].0 as int, ranges@[j].1 as int) == ls[j],
            i <= ranges@.len(),
            header_in_lines(ls, name@) == header_in_lines(ls.skip(i as int), name@),
        decreases ranges@.len() - i,
    {
        let (a, b) = ranges[i];
        let ghost line = ls[i as int];
        assert(v@.subrange(a as int, b as int) == line);
        let k = find_char(&v, a, b, ':');
        proof {
            assert(ls.skip(i as int)[0] == line);
            assert(ls.skip(i as int).drop_first() == ls.skip(i + 1));
        }
        if k < b {
            let (ta, tb) = trim_range(&v, a, k);
            proof {
                assert(line.take(k - a) == v@.subrange(a as int, k as int));
            }
            if eq_ignore_ascii_case_range(&v, ta, tb, &w) {
                let (va, vb) = trim_range(&v, k + 1, b);
                proof {
                    assert(line.skip(k - a + 1) == v@.subrange(k + 1, b as int));
                }
                return Some(string_from_range(&v, va, vb));
            }
        }
        i = i + 1;
    }
    proof {
        assert(ls.skip(i as int).len() == 0);
    }
    None
}

/// Whether `s` is the literal `lit`.
pub fn is_text(s: &str, lit: &str) -> (b: bool)
    ensures
        b == (s@ == lit@),
{
    String::from_str(s) == String::from_str(lit)
}

/// `v` without a leading `Bearer `.
pub open spec fn strip_bearer(v: Seq<char>) -> Seq<char> {
    if starts_with(v, "Bearer "@) {
        v.skip("Bearer "@.len() as int)
    } else {
        v
    }
}

/// The key a request presents: its `Authorization` value without a leading
/// `Bearer `, trimmed, when that is not empty.
pub open spec fn bearer_spec(raw: Seq<char>) -> Option<Seq<char>> {
    match header_spec(raw, "authorization"@) {
        None => None,
        Some(v) => {
            let t = trim(strip_bearer(v));
            if t.len() > 0 {
                Some(t)
            } else {
                None
            }
        },
    }
}

fn without_bearer(v: &str) -> (r: String)
    ensures
        r@ == trim(strip_bearer(v@)),
{
    let c = chars_of(v);
    let p = chars_of("Bearer ");
    proof {
        reveal_strlit("Bearer ");
    }
    if matches_at(&c, &p, 0) {
        let (a, b) = trim_range(&c, 7, c.len());
        assert(c@.subrange(7, c@.len() as int) == v@.skip(7));
        string_from_range(&c, a, b)
    } else {
        let (a, b) = trim_range(&c, 0, c.len());
        assert(c@.subrange(0, c@.len() as int) == v@);
        string_from_range(&c, a, b)
    }
}

/// The key presented by `raw_req`, if any.
pub fn bearer_token(raw_req: &str) -> (r: Option<String>)
    ensures
        match r {
            Some(s) => bearer_spec(raw_req@) == Some(s@),
            None => bearer_spec(raw_req@) is None,
        },
{
    match header_value(raw_req, "authorization") {
        None => None,
        Some(v) => {
            let t = without_bearer(v.as_str());
            if t.as_str().is_empty() {
                None
            } else {
                Some(t)
            }
        },
    }
}

/// Whether a request is authorized for the active key `expected`: always
/// when there is none; otherwise when it presents that key, compared
/// without a leading `Bearer ` and trimmed.
pub open spec fn authorized_spec(raw: Seq<char>, expected: Option<Seq<char>>) -> bool {
    match expected {
        None => true,
        Some(e) => bearer_spec(raw) == Some(trim(strip_bearer(e))),
    }
}

/// Whether `raw_req` may use the API when `expected_key` is active.
pub fn authorized(raw_req: &str, expected_key: &Option<String>) -> (b: bool)
    ensures
        b == authorized_spec(
            raw_req@,
            match expected_key {
                Some(k) => Some(k@),
                None => None,
            },
        ),
{
    match expected_key {
        None => true,
        Some(expected) => {
            let clean = without_bearer(expected.as_str());
            match bearer_token(raw_req) {
                Some(provided) => provided == clean,
                None => false,
            }
        },
    }
}

/// Whether the endpoint needs an API key: inference calls, that is POSTs to
/// the chat completion and embedding paths.
pub open spec fn requires_key_spec(method: Seq<char>, path: Seq<char>) -> bool {
    method == "POST"@ && (path == "/v1/chat/completions"@ || path == "/chat/completions"@ || path
        == "/v1/embeddings"@ || path == "/embeddings"@)
}

/// Whether `method` on `path` needs an API key.
pub fn requires_api_key(method: &str, path: &str) -> (b: bool)
    ensures
        b == requires_key_spec(method@, path@),
{
    is_text(method, "POST") && (is_text(path, "/v1/chat/completions") || is_text(
        path,
        "/chat/completions",
    ) || is_text(path, "/v1/embeddings") || is_text(path, "/embeddings"))
}

/// The origins allowed to call the gateway from a browser: the dashboard and
/// the desktop shell.
pub open spec fn allowed_origin(o: Seq<char>) -> bool {
    o == "http://127.0.0.1:3010"@ || o == "http://localhost:3010"@ || o == "tauri://localhost"@
        || o == "https://tauri.localhost"@
}

/// Whether a request comes from a trusted origin: it has no `Origin` header,
/// or an allowed one.
pub open spec fn trusted_spec(raw: Seq<char>) -> bool {
    match header_spec(raw, "origin"@) {
        None => true,
        Some(o) => allowed_origin(o),
    }
}

/// Whether `raw_req` comes from a trusted origin.
pub fn is_trusted_origin(raw_req: &str) -> (b: bool)
    ensures
        b == trusted_spec(raw_req@),
{
    match header_value(raw_req, "origin") {
        None => true,
        Some(origin) => {
            let o = origin.as_str();
            is_text(o, "http://127.0.0.1:3010") || is_text(o, "http://localhost:3010") || is_text(
                o,
                "tauri://localhost",
            ) || is_text(o, "https://tauri.localhost")
        },
    }
}

/// The origin echoed in CORS answers: the request's own when trusted (the
/// dashboard's when it sent none), else `null`.
pub open spec fn cors_origin_spec(raw: Seq<char>) -> Seq<char> {
    if trusted_spec(raw) {
        match header_spec(raw, "origin"@) {
            Some(o) => o,
            None => "http://127.0.0.1:3010"@,
        }
    } else {
        "null"@
    }
}

/// The origin to allow in the answer to `raw_req`.
pub fn cors_origin(raw_req: &str) -> (s: String)
    ensures
        s@ == cors_origin_spec(raw_req@),
{
    if is_trusted_origin(raw_req) {
        match header_value(raw_req, "origin") {
            Some(o) => o,
            None => String::from_str("http://127.0.0.1:3010"),
        }
    } else {
        String::from_str("null")
    }
}

/// The answer to a CORS preflight: 204 for a trusted origin, 403 otherwise.
pub open spec fn cors_response_text(raw: Seq<char>) -> Seq<char> {
    let (code, text) = if trusted_spec(raw) {
        (204nat, "No Content"@)
    } else {
        (403nat, "Forbidden"@)
    };
    "HTTP/1.1 "@ + decimal(code) + " "@ + text + "\r\nAccess-Control-Allow-Origin: "@
        + cors_origin_spec(raw)
        + "\r\nVary: Origin\r\nAccess-Control-Allow-Methods: GET, POST, OPTIONS\r\nAccess-Control-Allow-Headers: Authorization, Content-Type\r\nAccess-Control-Max-Age: 86400\r\nContent-Length: 0\r\n\r\n"@
}

/// The answer to a CORS preflight request.
pub fn build_cors_response(raw_req: &str) -> (s: String)
    ensures
        s@ == cors_response_text(raw_req@),
{
    let trusted = is_trusted_origin(raw_req);
    let mut s = String::from_str("HTTP/1.1 ");
    if trusted {
        push_decimal(&mut s, 204);
        s.append(" ");
        s.append("No Content");
    } else {
        push_decimal(&mut s, 403);
        s.append(" ");
        s.append("Forbidden");
    }
    s.append("\r\nAccess-Control-Allow-Origin: ");
    let origin = cors_origin(raw_req);
    s.append(origin.as_str());
    s.append(
        "\r\nVary: Origin\r\nAccess-Control-Allow-Methods: GET, POST, OPTIONS\r\nAccess-Control-Allow-Headers: Authorization, Content-Type\r\nAccess-Control-Max-Age: 86400\r\nContent-Length: 0\r\n\r\n",
    );
    s
}

/// A response with a status line and no body.
pub open spec fn http_response_text(code: u16, text: Seq<char>) -> Seq<char> {
    "HTTP/1.1 "@ + decimal(code as nat) + " "@ + text + "\r\nContent-Length: 0\r\n\r\n"@
}

/// An empty response with status `status_code` and reason `status_text`.
pub fn build_http_response(status_code: u16, status_text: &str) -> (s: String)
    ensures
        s@ == http_response_text(status_code, status_text@),
{
    let mut s = String::from_str("HTTP/1.1 ");
    push_decimal(&mut s, status_code as u64);
    s.append(" ");
    s.append(status_text);
    s.append("\r\nContent-Length: 0\r\n\r\n");
    s
}

/// The reason phrase sent with a status code (`OK` for codes not listed).
pub open spec fn reason_spec(code: u16) -> Seq<char> {
    if code == 200 {
        "OK"@
    } else if code == 204 {
        "No Content"@
    } else if code == 400 {
        "Bad Request"@
    } else if code == 401 {
        "Unauthorized"@
    } else if code == 403 {
        "Forbidden"@
    } else if code == 404 {
        "Not Found"@
    } else if code == 413 {
        "Payload Too Large"@
    } else if code == 500 {
        "Internal Server Error"@
    } else {
        "OK"@
    }
}

/// The reason phrase for `status_code`.
pub fn reason_phrase(status_code: u16) -> (s: &'static str)
    ensures
        s@ == reason_spec(status_code),
{
    if status_code == 200 {
        "OK"
    } else if status_code == 204 {
        "No Content"
    } else if status_code == 400 {
        "Bad Request"
    } else if status_code == 401 {
        "Unauthorized"
    } else if status_code == 403 {
        "Forbidden"
    } else if status_code == 404 {
        "Not Found"
    } else if status_code == 413 {
        "Payload Too Large"
    } else if status_code == 500 {
        "Internal Server Error"
    } else {
        "OK"
    }
}

/// A JSON response: status line, JSON content type, the dashboard's CORS
/// headers, the body's length in bytes, and the body.
pub open spec fn json_response_text(code: u16, body: Seq<char>) -> Seq<char> {
    "HTTP/1.1 "@ + decimal(code as nat) + " "@ + reason_spec(code)
        + "\r\nContent-Type: application/json; charset=utf-8\r\nAccess-Control-Allow-Origin: http://127.0.0.1:3010\r\nVary: Origin\r\nAccess-Control-Allow-Methods: GET, POST, OPTIONS\r\nAccess-Control-Allow-Headers: Authorization, Content-Type\r\nContent-Length: "@
        + decimal(encode_utf8(body).len()) + "\r\n\r\n"@ + body
}

/// The response carrying `json_body` with status `status_code`.
pub fn build_json_response(status_code: u16, json_body: &str) -> (s: String)
    ensures
        s@ == json_response_text(status_code, json_body@),
{
    let mut s = String::from_str("HTTP/1.1 ");
    push_decimal(&mut s, status_code as u64);
    s.append(" ");
    s.append(reason_phrase(status_code));
    s.append(
        "\r\nContent-Type: application/json; charset=utf-8\r\nAccess-Control-Allow-Origin: http://127.0.0.1:3010\r\nVary: Origin\r\nAccess-Control-Allow-Methods: GET, POST, OPTIONS\r\nAccess-Control-Allow-Headers: Authorization, Content-Type\r\nContent-Length: ",
    );
    let bytes = json_body.as_bytes();
    let len = bytes.len();
    push_decimal(&mut s, len as u64);
    s.append("\r\n\r\n");
    s.append(json_body);
    s
}

} // verus!
