//! HTTP/1.1 handling of one connection: reading the request head, deciding
//! what to answer, and writing the response head.
//!
//! The socket work stays with the caller; every decision is made here.
use crate::easyuser::{pair_views, params_to_hashmap, query_params, Params};
use crate::request_rules::{RouteError, ShowToUser};
use crate::text::{
    dec, ends_with, lines, lines_exec, lower_seq, push_str, split_once,
    split_once_exec, starts_with, str_eq, to_lower_str, trim, trim_str, u64_to_string, views, words,
    words_exec,
};
use vstd::prelude::*;
use vstd::utf8::{decode_utf8, encode_utf8, valid_utf8};

verus! {

/// The longest request head accepted, in bytes.
pub const MAX_HEAD_SIZE: usize = 16384;

/// The UTF-8 bytes of `s`.
pub fn bytes_of(s: &str) -> (r: Vec<u8>)
    ensures
        r@ == encode_utf8(s@),
{
    vstd::slice::slice_to_vec(s.as_bytes())
}

/// `std::str::from_utf8`: the text the bytes encode, where they are valid
/// UTF-8.
#[verifier::external_body]
pub(crate) fn utf8_text(b: &[u8]) -> (r: Option<String>)
    ensures
        r is Some <==> valid_utf8(b@),
        r matches Some(s) ==> s@ == decode_utf8(b@),
{
    match std::str::from_utf8(b) {
        Ok(s) => Some(s.to_string()),
        Err(_) => None,
    }
}

// ---------------------------------------------------------------------------
// The request line
// ---------------------------------------------------------------------------

/// Method, target and version of the first line of the head; the version is
/// `HTTP/1.1` when the line has only two words.
pub open spec fn spec_request_line(head: Seq<char>) -> Option<(Seq<char>, Seq<char>, Seq<char>)> {
    let ls = lines(head);
    if ls.len() == 0 {
        None
    } else {
        let ws = words(ls[0]);
        if ws.len() < 2 {
            None
        } else {
            Some((ws[0], ws[1], if ws.len() >= 3 { ws[2] } else { "HTTP/1.1"@ }))
        }
    }
}

/// Parses the request line `METHOD TARGET VERSION`.
pub fn parse_request_line(head: &str) -> (r: Option<(String, String, String)>)
    ensures
        match r {
            Some((m, t, v)) => spec_request_line(head@) == Some((m@, t@, v@)),
            None => spec_request_line(head@) is None,
        },
{
    let ls = lines_exec(head);
    if ls.len() == 0 {
        return None;
    }
    assert(views(ls@)[0] == ls@[0]@);
    let ws = words_exec(ls[0].as_str());
    if ws.len() < 2 {
        return None;
    }
    let method = ws[0].clone();
    let target = ws[1].clone();
    let version = if ws.len() >= 3 {
        ws[2].clone()
    } else {
        "HTTP/1.1".to_owned()
    };
    proof {
        assert(views(ws@)[0] == ws@[0]@);
        assert(views(ws@)[1] == ws@[1]@);
        if ws@.len() >= 3 {
            assert(views(ws@)[2] == ws@[2]@);
        }
    }
    Some((method, target, version))
}

// ---------------------------------------------------------------------------
// The request head
// ---------------------------------------------------------------------------

/// The blank line `\r\n\r\n` that ends a head starts at `i`.
pub open spec fn head_end_at(b: Seq<u8>, i: int) -> bool {
    0 <= i && i + 4 <= b.len() && b[i] == 13 && b[i + 1] == 10 && b[i + 2] == 13 && b[i + 3]
        == 10
}

/// The position of the first `\r\n\r\n` in `buf`.
pub fn find_head_end(buf: &[u8]) -> (r: Option<usize>)
    ensures
        match r {
            Some(i) => head_end_at(buf@, i as int) && forall|j: int|
                0 <= j < i ==> !head_end_at(buf@, j),
            None => forall|j: int| !head_end_at(buf@, j),
        },
{
    let mut i: usize = 0;
    while i < buf.len() && buf.len() - i >= 4
        invariant
            i <= buf.len(),
            forall|j: int| 0 <= j < i ==> !head_end_at(buf@, j),
        decreases buf.len() - i,
    {
        if buf[i] == 13 && buf[i + 1] == 10 && buf[i + 2] == 13 && buf[i + 3] == 10 {
            return Some(i);
        }
        i = i + 1;
    }
    None
}

/// Where reading a request head stands.
#[derive(Debug, PartialEq, Eq)]
pub enum HeadStatus {
    /// The head is complete and takes the first `n` bytes, blank line included.
    Complete(usize),
    /// No blank line within the size limit.
    TooLarge,
    /// More bytes are needed.
    NeedMore,
}

/// Whether the bytes read so far hold a whole head.
pub fn check_head(buf: &[u8]) -> (r: HeadStatus)
    ensures
        match r {
            HeadStatus::Complete(n) => exists|i: int|
                head_end_at(buf@, i) && n == i + 4 && forall|j: int|
                    0 <= j < i ==> !head_end_at(buf@, j),
            HeadStatus::TooLarge => (forall|j: int| !head_end_at(buf@, j)) && buf@.len()
                >= MAX_HEAD_SIZE,
            HeadStatus::NeedMore => (forall|j: int| !head_end_at(buf@, j)) && buf@.len()
                < MAX_HEAD_SIZE,
        },
{
    match find_head_end(buf) {
        Some(pos) => {
            assert(pos + 4 <= buf@.len());
            assert(buf@.len() == buf.len());
            HeadStatus::Complete(pos + 4)
        },
        None => if buf.len() >= MAX_HEAD_SIZE {
            HeadStatus::TooLarge
        } else {
            HeadStatus::NeedMore
        },
    }
}

/// Law: reading a head stops at the first blank line, and bytes read
/// after it do not move it: where `buf` holds a complete head of `n` bytes,
/// so does `buf` followed by any further bytes, with the same `n`.
pub proof fn law_head_end_stable(buf: Seq<u8>, more: Seq<u8>, i: int)
    requires
        head_end_at(buf, i),
        forall|j: int| 0 <= j < i ==> !head_end_at(buf, j),
    ensures
        head_end_at(buf + more, i),
        forall|j: int| 0 <= j < i ==> !head_end_at(buf + more, j),
{
    assert forall|j: int| 0 <= j < i implies !head_end_at(buf + more, j) by {
        if head_end_at(buf + more, j) {
            assert(j + 4 <= buf.len());
            assert((buf + more)[j] == buf[j] && (buf + more)[j + 1] == buf[j + 1]);
            assert((buf + more)[j + 2] == buf[j + 2] && (buf + more)[j + 3] == buf[j + 3]);
            assert(head_end_at(buf, j));
        }
    }
    assert((buf + more)[i] == buf[i] && (buf + more)[i + 3] == buf[i + 3]);
    assert((buf + more)[i + 1] == buf[i + 1] && (buf + more)[i + 2] == buf[i + 2]);
}

// ---------------------------------------------------------------------------
// Keep-alive
// ---------------------------------------------------------------------------

/// The line is a header `name: value`, compared after trimming and ASCII
/// lower-casing both sides.
pub open spec fn header_is(line: Seq<char>, name: Seq<char>, value: Seq<char>) -> bool {
    match split_once(line, ':') {
        Some((k, v)) => lower_seq(trim(k)) == name && lower_seq(trim(v)) == value,
        None => false,
    }
}

/// Some line of the head is the header `name: value`.
pub open spec fn has_header(head: Seq<char>, name: Seq<char>, value: Seq<char>) -> bool {
    exists|i: int| 0 <= i < lines(head).len() && header_is(#[trigger] lines(head)[i], name, value)
}

/// HTTP/1.1 keeps the connection unless `Connection: close` is sent; older
/// versions keep it only with `Connection: keep-alive`.
pub open spec fn spec_keep_alive(head: Seq<char>, version: Seq<char>) -> bool {
    if "HTTP/1.1"@.is_prefix_of(version) {
        !has_header(head, "connection"@, "close"@)
    } else {
        has_header(head, "connection"@, "keep-alive"@)
    }
}

/// Reads the `Connection` header to decide whether to keep the connection.
pub fn parse_keep_alive(head: &str, version: &str) -> (r: bool)
    ensures
        r == spec_keep_alive(head@, version@),
{
    let ls = lines_exec(head);
    let ghost lv = views(ls@);
    let mut close = false;
    let mut keep = false;
    let mut i: usize = 0;
    while i < ls.len()
        invariant
            i <= ls.len(),
            lv == views(ls@),
            lv == lines(head@),
            close == exists|j: int| 0 <= j < i && header_is(#[trigger] lv[j], "connection"@, "close"@),
            keep == exists|j: int|
                0 <= j < i && header_is(#[trigger] lv[j], "connection"@, "keep-alive"@),
        decreases ls.len() - i,
    {
        assert(lv[i as int] == ls@[i as int]@);
        match split_once_exec(ls[i].as_str(), ':') {
            Some((k, v)) => {
                let key = to_lower_str(trim_str(k.as_str()).as_str());
                let value = to_lower_str(trim_str(v.as_str()).as_str());
                if str_eq(key.as_str(), "connection") {
                    let c = str_eq(value.as_str(), "close");
                    let kp = str_eq(value.as_str(), "keep-alive");
                    close = close || c;
                    keep = keep || kp;
                }
                proof {
                    assert(header_is(lv[i as int], "connection"@, "close"@) == (key@
                        == "connection"@ && value@ == "close"@));
                    assert(header_is(lv[i as int], "connection"@, "keep-alive"@) == (key@
                        == "connection"@ && value@ == "keep-alive"@));
                }
            },
            None => {
                assert(!header_is(lv[i as int], "connection"@, "close"@));
                assert(!header_is(lv[i as int], "connection"@, "keep-alive"@));
            },
        }
        i = i + 1;
    }
    if starts_with(version, "HTTP/1.1") {
        !close
    } else {
        keep
    }
}

// ---------------------------------------------------------------------------
// Planning a request
// ---------------------------------------------------------------------------

/// Keep-alive is honoured only for the documentation and static files.
pub open spec fn spec_is_doc_route(path: Seq<char>) -> bool {
    path == "/"@ || "/docs/"@.is_prefix_of(path) || "/index/"@.is_prefix_of(path) || path
        == "/favicon.ico"@
}

pub fn is_doc_route(path: &str) -> (r: bool)
    ensures
        r == spec_is_doc_route(path@),
{
    str_eq(path, "/") || starts_with(path, "/docs/") || starts_with(path, "/index/") || str_eq(
        path,
        "/favicon.ico",
    )
}

/// What to do with a complete request head.
#[derive(Debug)]
pub enum RequestPlan {
    /// Answer at once with this status and body, then close.
    Reject { status: u16, body: String },
    /// Serve `path` with its query parameters; keep the connection afterwards
    /// when `keep_alive` holds.
    Serve { path: String, params: Params, keep_alive: bool },
}

/// The path and query of a request target, split at the first `?`.
pub open spec fn split_target(target: Seq<char>) -> (Seq<char>, Seq<(Seq<char>, Seq<char>)>) {
    match split_once(target, '?') {
        Some((before, after)) => (before, query_params(after)),
        None => (target, seq![]),
    }
}

/// The view of a plan: status and body of a rejection, or path, parameters
/// (in insertion order) and keep-alive of a request to serve.
pub enum PlanView {
    Reject(u16, Seq<char>),
    Serve(Seq<char>, Seq<(Seq<char>, Seq<char>)>, bool),
}

/// Heads that are not UTF-8 or have no request line are answered with 400;
/// methods other than GET and HEAD with 405; anything else is served.
pub open spec fn spec_plan(head: Seq<u8>) -> PlanView {
    if !valid_utf8(head) {
        PlanView::Reject(400, "Bad Request"@)
    } else {
        let text = decode_utf8(head);
        match spec_request_line(text) {
            None => PlanView::Reject(400, "Bad Request"@),
            Some((method, target, version)) => if method != "GET"@ && method != "HEAD"@ {
                PlanView::Reject(405, "Method Not Allowed"@)
            } else {
                let (path, params) = split_target(target);
                PlanView::Serve(
                    path,
                    params,
                    spec_is_doc_route(path) && spec_keep_alive(text, version),
                )
            },
        }
    }
}

impl View for RequestPlan {
    type V = PlanView;

    open spec fn view(&self) -> PlanView {
        match self {
            RequestPlan::Reject { status, body } => PlanView::Reject(*status, body@),
            RequestPlan::Serve { path, params, keep_alive } => PlanView::Serve(
                path@,
                pair_views(params.pairs@),
                *keep_alive,
            ),
        }
    }
}

/// Decides how to answer the request whose head is `head`.
pub fn plan_request(head: &[u8]) -> (r: RequestPlan)
    ensures
        r@ == spec_plan(head@),
{
    let text = match utf8_text(head) {
        Some(t) => t,
        None => {
            return RequestPlan::Reject { status: 400, body: "Bad Request".to_owned() };
        },
    };
    let (method, target, version) = match parse_request_line(text.as_str()) {
        Some(t) => t,
        None => {
            return RequestPlan::Reject { status: 400, body: "Bad Request".to_owned() };
        },
    };
    if !str_eq(method.as_str(), "GET") && !str_eq(method.as_str(), "HEAD") {
        return RequestPlan::Reject { status: 405, body: "Method Not Allowed".to_owned() };
    }
    let (path, params) = match split_once_exec(target.as_str(), '?') {
        Some((before, after)) => (before, params_to_hashmap(after.as_str())),
        None => {
            let p = Params::new();
            assert(pair_views(p.pairs@) == Seq::<(Seq<char>, Seq<char>)>::empty());
            (target, p)
        },
    };
    let keep_alive = is_doc_route(path.as_str()) && parse_keep_alive(
        text.as_str(),
        version.as_str(),
    );
    RequestPlan::Serve { path, params, keep_alive }
}

/// The bytes left for the next request once the head is answered.
pub fn consume_head(buf: &mut Vec<u8>, n: usize)
    requires
        n <= old(buf)@.len(),
    ensures
        final(buf)@ == old(buf)@.skip(n as int),
{
    let mut rest: Vec<u8> = Vec::new();
    let mut i: usize = n;
    while i < buf.len()
        invariant
            n <= i <= buf.len(),
            rest@ == buf@.subrange(n as int, i as int),
        decreases buf.len() - i,
    {
        rest.push(buf[i]);
        assert(buf@.subrange(n as int, i + 1) == buf@.subrange(n as int, i as int).push(
            buf@[i as int],
        ));
        i = i + 1;
    }
    *buf = rest;
}

// ---------------------------------------------------------------------------
// Rendering
// ---------------------------------------------------------------------------

/// The reason phrase sent after a status code.
pub open spec fn spec_reason(status: u16) -> Seq<char> {
    if status == 200 {
        "OK"@
    } else if status == 400 {
        "Bad Request"@
    } else if status == 404 {
        "Not Found"@
    } else if status == 405 {
        "Method Not Allowed"@
    } else if status == 431 {
        "Request Header Fields Too Large"@
    } else if status == 500 {
        "Internal Server Error"@
    } else if status == 502 {
        "Bad Gateway"@
    } else {
        "Error"@
    }
}

pub fn reason_phrase(status: u16) -> (r: &'static str)
    ensures
        r@ == spec_reason(status),
{
    match status {
        200 => "OK",
        400 => "Bad Request",
        404 => "Not Found",
        405 => "Method Not Allowed",
        431 => "Request Header Fields Too Large",
        500 => "Internal Server Error",
        502 => "Bad Gateway",
        _ => "Error",
    }
}

/// The content type of a static file, by its extension.
pub open spec fn spec_mime(path: Seq<char>) -> Seq<char> {
    if ".css"@.is_suffix_of(path) {
        "text/css; charset=utf-8"@
    } else if ".js"@.is_suffix_of(path) {
        "application/javascript; charset=utf-8"@
    } else if ".svg"@.is_suffix_of(path) {
        "image/svg+xml"@
    } else if ".png"@.is_suffix_of(path) {
        "image/png"@
    } else if ".jpg"@.is_suffix_of(path) || ".jpeg"@.is_suffix_of(path) {
        "image/jpeg"@
    } else if ".gif"@.is_suffix_of(path) {
        "image/gif"@
    } else if ".ico"@.is_suffix_of(path) {
        "image/x-icon"@
    } else if ".woff2"@.is_suffix_of(path) {
        "font/woff2"@
    } else if ".woff"@.is_suffix_of(path) {
        "font/woff"@
    } else if ".ttf"@.is_suffix_of(path) {
        "font/ttf"@
    } else if ".json"@.is_suffix_of(path) {
        "application/json; charset=utf-8"@
    } else if ".xml"@.is_suffix_of(path) {
        "application/xml; charset=utf-8"@
    } else {
        "text/html; charset=utf-8"@
    }
}

pub fn mime_type(path: &str) -> (r: &'static str)
    ensures
        r@ == spec_mime(path@),
{
    if ends_with(path, ".css") {
        "text/css; charset=utf-8"
    } else if ends_with(path, ".js") {
        "application/javascript; charset=utf-8"
    } else if ends_with(path, ".svg") {
        "image/svg+xml"
    } else if ends_with(path, ".png") {
        "image/png"
    } else if ends_with(path, ".jpg") || ends_with(path, ".jpeg") {
        "image/jpeg"
    } else if ends_with(path, ".gif") {
        "image/gif"
    } else if ends_with(path, ".ico") {
        "image/x-icon"
    } else if ends_with(path, ".woff2") {
        "font/woff2"
    } else if ends_with(path, ".woff") {
        "font/woff"
    } else if ends_with(path, ".ttf") {
        "font/ttf"
    } else if ends_with(path, ".json") {
        "application/json; charset=utf-8"
    } else if ends_with(path, ".xml") {
        "application/xml; charset=utf-8"
    } else {
        "text/html; charset=utf-8"
    }
}

/// Status, content type and body of an error: an [`HttpError`](crate::easyuser::HttpError)
/// keeps its own status and message; the message `404NotFound` is a 404;
/// anything else is a 500 with the message as body.
pub open spec fn spec_error_render(e: RouteError) -> (u16, Seq<char>, Seq<u8>) {
    match e {
        RouteError::Http(he) => (he.status, "text/plain; charset=utf-8"@, encode_utf8(he.message@)),
        RouteError::Message(m) => if m@ == "404NotFound"@ {
            (404, "text/plain; charset=utf-8"@, encode_utf8("404NotFound"@))
        } else {
            (500, "text/plain; charset=utf-8"@, encode_utf8(m@))
        },
    }
}

pub fn error_render(e: RouteError) -> (r: (u16, String, Vec<u8>))
    ensures
        (r.0, r.1@, r.2@) == spec_error_render(e),
{
    match e {
        RouteError::Http(he) => (
            he.status,
            "text/plain; charset=utf-8".to_owned(),
            bytes_of(he.message.as_str()),
        ),
        RouteError::Message(m) => {
            if str_eq(m.as_str(), "404NotFound") {
                (404, "text/plain; charset=utf-8".to_owned(), bytes_of("404NotFound"))
            } else {
                (500, "text/plain; charset=utf-8".to_owned(), bytes_of(m.as_str()))
            }
        },
    }
}

/// Status, content type and body for what a request produced.
pub open spec fn spec_render(r: ShowToUser) -> (u16, Seq<char>, Seq<u8>) {
    match r {
        ShowToUser::Html { res } => match res {
            Ok(s) => (200, "text/html; charset=utf-8"@, encode_utf8(s@)),
            Err(e) => spec_error_render(e),
        },
        ShowToUser::Rss { res } => match res {
            Ok(s) => (200, "application/xml; charset=utf-8"@, encode_utf8(s@)),
            Err(e) => spec_error_render(e),
        },
        ShowToUser::File { res, content_type } => match res {
            Ok(b) => (200, content_type@, b@),
            Err(e) => spec_error_render(e),
        },
    }
}

pub fn render(response: ShowToUser) -> (r: (u16, String, Vec<u8>))
    ensures
        (r.0, r.1@, r.2@) == spec_render(response),
{
    match response {
        ShowToUser::Html { res } => match res {
            Ok(s) => (200, "text/html; charset=utf-8".to_owned(), bytes_of(s.as_str())),
            Err(e) => error_render(e),
        },
        ShowToUser::Rss { res } => match res {
            Ok(s) => (200, "application/xml; charset=utf-8".to_owned(), bytes_of(s.as_str())),
            Err(e) => error_render(e),
        },
        ShowToUser::File { res, content_type } => match res {
            Ok(b) => (200, content_type, b),
            Err(e) => error_render(e),
        },
    }
}

/// What a routed request shows: its feed as an RSS page, its failure as an
/// HTML error page carrying the same error.
pub fn route_page(res: Result<String, RouteError>) -> (r: ShowToUser)
    ensures
        match res {
            Ok(s) => r == (ShowToUser::Rss { res: Ok(s) }),
            Err(e) => r == (ShowToUser::Html { res: Err(e) }),
        },
{
    match res {
        Ok(s) => ShowToUser::Rss { res: Ok(s) },
        Err(e) => ShowToUser::Html { res: Err(e) },
    }
}

/// A static path is served as a documentation page exactly when its type
/// (see [`spec_mime`]) is HTML.
pub fn static_is_doc(path: &str) -> (r: bool)
    ensures
        r == (spec_mime(path@) == "text/html; charset=utf-8"@),
{
    str_eq(mime_type(path), "text/html; charset=utf-8")
}

/// The index page: its text, or the failure naming `index.html` and the
/// kind of the read error.
pub fn index_page(read: Result<String, String>) -> (r: ShowToUser)
    ensures
        match read {
            Ok(t) => r == (ShowToUser::Html { res: Ok(t) }),
            Err(kind) => r matches ShowToUser::Html { res: Err(RouteError::Message(m)) } && m@ == "index.html:"@ + kind@,
        },
{
    match read {
        Ok(t) => ShowToUser::Html { res: Ok(t) },
        Err(kind) => ShowToUser::Html { res: Err(RouteError::Message(crate::text::cat("index.html:", kind.as_str()))) },
    }
}

/// A documentation page: the page read (`page`), else the site's 404 page
/// (`not_found`), else the failure `404 html Operation failed`.
pub fn doc_page(page: Option<String>, not_found: Option<String>) -> (r: ShowToUser)
    ensures
        match (page, not_found) {
            (Some(p), _) => r == (ShowToUser::Html { res: Ok(p) }),
            (None, Some(n)) => r == (ShowToUser::Html { res: Ok(n) }),
            (None, None) => r matches ShowToUser::Html { res: Err(RouteError::Message(m)) } && m@ == "404 html Operation failed"@,
        },
{
    match (page, not_found) {
        (Some(p), _) => ShowToUser::Html { res: Ok(p) },
        (None, Some(n)) => ShowToUser::Html { res: Ok(n) },
        (None, None) => ShowToUser::Html { res: Err(RouteError::msg("404 html Operation failed")) },
    }
}

/// A static file that is not a page: its bytes with the type of its path,
/// or, where it could not be read (`read` is the kind of the error), an
/// HTML failure naming the path.
pub fn file_page(path: &str, read: Result<Vec<u8>, String>) -> (r: ShowToUser)
    ensures
        match read {
            Ok(b) => r matches ShowToUser::File { res: Ok(x), content_type: c } && x@ == b@ && c@ == spec_mime(path@),
            Err(kind) => r matches ShowToUser::Html { res: Err(RouteError::Message(m)) }
                && m@ == "404 html Operation failed: "@ + path@ + ":"@ + kind@,
        },
{
    match read {
        Ok(b) => ShowToUser::File { res: Ok(b), content_type: mime_type(path).to_owned() },
        Err(kind) => {
            let mut m = crate::text::cat("404 html Operation failed: ", path);
            push_str(&mut m, ":");
            push_str(&mut m, kind.as_str());
            ShowToUser::Html { res: Err(RouteError::Message(m)) }
        },
    }
}

/// The bytes of the answer to a rejected request: the status, plain text,
/// the body, and the connection closed.
pub open spec fn spec_reject_bytes(status: u16, body: Seq<char>) -> Seq<u8> {
    encode_utf8(spec_response_head(status, "text/plain; charset=utf-8"@, encode_utf8(body).len(), false))
        + encode_utf8(body)
}

/// The bytes of the answer to a rejected request (see [`spec_reject_bytes`]).
pub fn reject_bytes(status: u16, body: &str) -> (r: Vec<u8>)
    ensures
        r@ == spec_reject_bytes(status, body@),
{
    let b = bytes_of(body);
    response_bytes(status, "text/plain; charset=utf-8", b.as_slice(), false)
}

/// Law: a complete UTF-8 request head whose method is neither `GET` nor
/// `HEAD` is rejected with 405 and no route runs; the bytes written are
/// exactly the 405 response below, with the connection closed.
pub proof fn law_method_not_allowed(head: Seq<u8>)
    requires
        valid_utf8(head),
        spec_request_line(decode_utf8(head)) matches Some(l) && l.0 != "GET"@ && l.0 != "HEAD"@,
    ensures
        spec_plan(head) == PlanView::Reject(405, "Method Not Allowed"@),
        spec_reject_bytes(405, "Method Not Allowed"@) == encode_utf8(
            "HTTP/1.1 405 Method Not Allowed\r\nContent-Type: text/plain; charset=utf-8\r\nContent-Length: 18\r\nConnection: close\r\n\r\nMethod Not Allowed"@,
        ),
{
    reveal_strlit("Method Not Allowed");
    reveal_strlit("HTTP/1.1 405 Method Not Allowed\r\nContent-Type: text/plain; charset=utf-8\r\nContent-Length: 18\r\nConnection: close\r\n\r\nMethod Not Allowed");
    reveal_strlit("HTTP/1.1 ");
    reveal_strlit(" ");
    reveal_strlit("\r\nContent-Type: ");
    reveal_strlit("text/plain; charset=utf-8");
    reveal_strlit("\r\nContent-Length: ");
    reveal_strlit("\r\nConnection: ");
    reveal_strlit("close");
    reveal_strlit("\r\n\r\n");
    let body = "Method Not Allowed"@;
    assert(vstd::utf8::is_ascii_chars(body));
    vstd::utf8::is_ascii_chars_encode_utf8(body);
    assert(encode_utf8(body).len() == 18);
    assert(dec(18) =~= seq!['1', '8']) by {
        reveal_with_fuel(dec, 3);
    }
    assert(dec(405) =~= seq!['4', '0', '5']) by {
        reveal_with_fuel(dec, 4);
    }
    let h = spec_response_head(405, "text/plain; charset=utf-8"@, 18, false);
    assert(h + body =~= "HTTP/1.1 405 Method Not Allowed\r\nContent-Type: text/plain; charset=utf-8\r\nContent-Length: 18\r\nConnection: close\r\n\r\nMethod Not Allowed"@);
    crate::easyuser::lemma_encode_utf8_concat(h, body);
}

/// Law: a request that is served keeps the connection open, and is
/// answered with `Connection: keep-alive`, exactly when its path is a
/// documentation route and its head asks for keep-alive; otherwise the
/// answer says `Connection: close` and the connection ends.
pub proof fn law_keep_alive_only_for_docs(head: Seq<u8>, status: u16, content_type: Seq<char>, len: nat)
    requires
        spec_plan(head) is Serve,
    ensures
        spec_plan(head) matches PlanView::Serve(path, _, ka) && {
            let text = decode_utf8(head);
            &&& spec_request_line(text) matches Some(l) && ka == (spec_is_doc_route(path) && spec_keep_alive(text, l.2))
            &&& spec_response_head(status, content_type, len, ka) == "HTTP/1.1 "@ + dec(status as nat) + " "@
                + spec_reason(status) + "\r\nContent-Type: "@ + content_type + "\r\nContent-Length: "@ + dec(len)
                + "\r\nConnection: "@ + (if ka { "keep-alive"@ } else { "close"@ }) + "\r\n\r\n"@
        },
{
}

/// The status line and headers of a response, ending with the blank line.
pub open spec fn spec_response_head(
    status: u16,
    content_type: Seq<char>,
    len: nat,
    keep_alive: bool,
) -> Seq<char> {
    "HTTP/1.1 "@ + dec(status as nat) + " "@ + spec_reason(status) + "\r\nContent-Type: "@
        + content_type + "\r\nContent-Length: "@ + dec(len) + "\r\nConnection: "@ + (if keep_alive {
        "keep-alive"@
    } else {
        "close"@
    }) + "\r\n\r\n"@
}

pub fn response_head(status: u16, content_type: &str, body_len: usize, keep_alive: bool) -> (r:
    String)
    ensures
        r@ == spec_response_head(status, content_type@, body_len as nat, keep_alive),
{
    let mut h = "HTTP/1.1 ".to_owned();
    push_str(&mut h, u64_to_string(status as u64).as_str());
    push_str(&mut h, " ");
    push_str(&mut h, reason_phrase(status));
    push_str(&mut h, "\r\nContent-Type: ");
    push_str(&mut h, content_type);
    push_str(&mut h, "\r\nContent-Length: ");
    push_str(&mut h, u64_to_string(body_len as u64).as_str());
    push_str(&mut h, "\r\nConnection: ");
    push_str(&mut h, if keep_alive { "keep-alive" } else { "close" });
    push_str(&mut h, "\r\n\r\n");
    h
}

/// The whole answer to a request: status line, headers, then the body.
pub fn response_bytes(status: u16, content_type: &str, body: &[u8], keep_alive: bool) -> (r: Vec<
    u8,
>)
    ensures
        r@ == encode_utf8(spec_response_head(status, content_type@, body@.len(), keep_alive))
            + body@,
{
    let head = response_head(status, content_type, body.len(), keep_alive);
    let mut out = bytes_of(head.as_str());
    let ghost h = out@;
    let mut i: usize = 0;
    while i < body.len()
        invariant
            i <= body.len(),
            out@ == h + body@.take(i as int),
        decreases body.len() - i,
    {
        out.push(body[i]);
        assert(body@.take(i + 1) == body@.take(i as int).push(body@[i as int]));
        i = i + 1;
    }
    assert(body@.take(body.len() as int) == body@);
    out
}

} // verus!
