//! Requests to the code-hosting service, described as plain values. The
//! caller sends them and reports what came back.

use crate::chars::{chars_of, push_all, push_str, string_of};
use crate::decimal::{decimal_text, push_decimal};
use crate::text::{trim, trimmed};
use vstd::prelude::*;

verus! {

/// The method of a request.
#[derive(Debug, Clone, Copy, PartialEq, Eq, Structural)]
pub enum Method {
    Get,
    Post,
}

/// One header of a request. Its view is the pair of name and value.
#[derive(Debug, Clone)]
pub struct Header {
    pub name: String,
    pub value: String,
}

impl View for Header {
    type V = (Seq<char>, Seq<char>);

    open spec fn view(&self) -> (Seq<char>, Seq<char>) {
        (self.name@, self.value@)
    }
}

/// The views of a list of headers, in order.
pub open spec fn header_views(v: Seq<Header>) -> Seq<(Seq<char>, Seq<char>)> {
    v.map_values(|h: Header| h@)
}

/// One entry of a Git tree that is to be created.
#[derive(Debug, Clone)]
pub struct TreeEntry {
    pub path: String,
    pub mode: String,
    pub entry_type: String,
    pub sha: String,
}

/// The texts of a [`TreeEntry`].
pub struct TreeEntryView {
    pub path: Seq<char>,
    pub mode: Seq<char>,
    pub entry_type: Seq<char>,
    pub sha: Seq<char>,
}

impl View for TreeEntry {
    type V = TreeEntryView;

    open spec fn view(&self) -> TreeEntryView {
        TreeEntryView {
            path: self.path@,
            mode: self.mode@,
            entry_type: self.entry_type@,
            sha: self.sha@,
        }
    }
}

/// The views of a list of tree entries, in order.
pub open spec fn entry_views(v: Seq<TreeEntry>) -> Seq<TreeEntryView> {
    v.map_values(|e: TreeEntry| e@)
}

/// What a request carries: nothing, form fields, or one of the JSON objects
/// of the Git data interface.
#[derive(Debug, Clone)]
#[allow(inconsistent_fields)]
pub enum RequestBody {
    Empty,
    Form { fields: Vec<Header> },
    Blob { content: String, encoding: String },
    Tree { base_tree: String, tree: Vec<TreeEntry> },
    Commit { message: String, tree: String, parent: String },
    Ref { ref_name: String, sha: String },
    PullRequest { title: String, head: String, base: String, body: String },
}

/// The texts of a [`RequestBody`].
#[allow(inconsistent_fields)]
pub enum RequestBodyView {
    Empty,
    Form { fields: Seq<(Seq<char>, Seq<char>)> },
    Blob { content: Seq<char>, encoding: Seq<char> },
    Tree { base_tree: Seq<char>, tree: Seq<TreeEntryView> },
    Commit { message: Seq<char>, tree: Seq<char>, parent: Seq<char> },
    Ref { ref_name: Seq<char>, sha: Seq<char> },
    PullRequest { title: Seq<char>, head: Seq<char>, base: Seq<char>, body: Seq<char> },
}

impl View for RequestBody {
    type V = RequestBodyView;

    open spec fn view(&self) -> RequestBodyView {
        match self {
            RequestBody::Empty => RequestBodyView::Empty,
            RequestBody::Form { fields } => RequestBodyView::Form { fields: header_views(fields@) },
            RequestBody::Blob { content, encoding } => RequestBodyView::Blob {
                content: content@,
                encoding: encoding@,
            },
            RequestBody::Tree { base_tree, tree } => RequestBodyView::Tree {
                base_tree: base_tree@,
                tree: entry_views(tree@),
            },
            RequestBody::Commit { message, tree, parent } => RequestBodyView::Commit {
                message: message@,
                tree: tree@,
                parent: parent@,
            },
            RequestBody::Ref { ref_name, sha } => RequestBodyView::Ref {
                ref_name: ref_name@,
                sha: sha@,
            },
            RequestBody::PullRequest { title, head, base, body } => RequestBodyView::PullRequest {
                title: title@,
                head: head@,
                base: base@,
                body: body@,
            },
        }
    }
}

/// A request for the caller to send.
#[derive(Debug, Clone)]
pub struct HttpRequest {
    pub method: Method,
    pub url: String,
    pub headers: Vec<Header>,
    pub body: RequestBody,
}

/// The texts of an [`HttpRequest`].
pub struct HttpRequestView {
    pub method: Method,
    pub url: Seq<char>,
    pub headers: Seq<(Seq<char>, Seq<char>)>,
    pub body: RequestBodyView,
}

impl View for HttpRequest {
    type V = HttpRequestView;

    open spec fn view(&self) -> HttpRequestView {
        HttpRequestView {
            method: self.method,
            url: self.url@,
            headers: header_views(self.headers@),
            body: self.body@,
        }
    }
}

/// A character that a header value may hold: a tab, or anything from the
/// space on but the delete character.
pub open spec fn is_header_char(c: char) -> bool {
    c == '\t' || (c >= ' ' && c != '\u{7F}')
}

/// A text that can be sent as a header value.
pub open spec fn is_header_text(s: Seq<char>) -> bool {
    forall|i: int| 0 <= i < s.len() ==> is_header_char(#[trigger] s[i])
}

/// `HeaderValue::from_str` of `reqwest` accepts a text exactly when each of
/// its bytes is a tab or at least 32 and not 127. The bytes of a character
/// beyond ASCII are all above 127, so that is a condition on the characters.
#[verifier::external_body]
fn header_value_accepts(value: &str) -> (ok: bool)
    ensures
        ok == is_header_text(value@),
{
    reqwest::header::HeaderValue::from_str(value).is_ok()
}

/// The text that stands for a status code from 100 to 999: the number, a
/// space and the reason phrase that goes with the number.
pub uninterp spec fn status_line(code: u16) -> Seq<char>;

/// `StatusCode::from_u16` of `reqwest` accepts the codes from 100 to 999, and
/// the status code's `Display` writes the text that `status_line` names.
#[verifier::external_body]
fn status_line_of(code: u16) -> (r: String)
    requires
        100 <= code <= 999,
    ensures
        r@ == status_line(code),
{
    match reqwest::StatusCode::from_u16(code) {
        Ok(status) => status.to_string(),
        Err(_) => String::new(),
    }
}

/// How a status code is shown in a message: by its status line where it has
/// one, by its number alone otherwise.
pub open spec fn status_text(code: u16) -> Seq<char> {
    if 100 <= code <= 999 {
        status_line(code)
    } else {
        decimal_text(code as nat)
    }
}

/// Appends the text that shows a status code.
pub fn push_status(out: &mut Vec<char>, code: u16)
    ensures
        final(out)@ == old(out)@ + status_text(code),
{
    if 100 <= code && code <= 999 {
        let line = status_line_of(code);
        push_str(out, line.as_str());
    } else {
        push_decimal(out, code as u64);
    }
}

/// Whether a status code reports success: 200 to 299.
pub open spec fn is_success(code: u16) -> bool {
    200 <= code <= 299
}

/// Whether a status code reports success.
pub fn status_is_success(code: u16) -> (r: bool)
    ensures
        r == is_success(code),
{
    200 <= code && code <= 299
}

/// Whether a status code reports missing or refused credentials: 401 or 403.
pub open spec fn is_auth_failure(code: u16) -> bool {
    code == 401 || code == 403
}

/// The value of the authorization header for a token.
pub open spec fn bearer(token: Seq<char>) -> Seq<char> {
    "Bearer "@ + trimmed(token)
}

/// The authorization header for a token, where there is a token and the
/// header value can be sent.
pub open spec fn auth_headers(token: Option<Seq<char>>) -> Seq<(Seq<char>, Seq<char>)> {
    match token {
        Some(t) => if is_header_text(bearer(t)) {
            seq![("authorization"@, bearer(t))]
        } else {
            Seq::empty()
        },
        None => Seq::empty(),
    }
}

/// The headers of a request to the programming interface: the authorization
/// header where there is one, the accepted media type and the user agent.
pub open spec fn api_headers(token: Option<Seq<char>>) -> Seq<(Seq<char>, Seq<char>)> {
    auth_headers(token) + seq![
        ("accept"@, "application/vnd.github.v3+json"@),
        ("user-agent"@, "UniCreate/1.0"@),
    ]
}

/// The view of an optional string slice.
pub open spec fn opt_str(o: Option<&str>) -> Option<Seq<char>> {
    match o {
        Some(s) => Some(s@),
        None => None,
    }
}

/// A header with the given name and value.
pub fn header(name: &str, value: &str) -> (h: Header)
    ensures
        h@ == (name@, value@),
{
    Header { name: name.to_owned(), value: value.to_owned() }
}

/// The headers of a request that may carry a token.
pub fn build_headers_optional(token: Option<&str>) -> (headers: Vec<Header>)
    ensures
        header_views(headers@) == api_headers(opt_str(token)),
{
    let mut headers: Vec<Header> = Vec::new();
    match token {
        Some(t) => {
            let tv = chars_of(t);
            let mut value = chars_of("Bearer ");
            let trimmed_token = trim(&tv);
            push_all(&mut value, &trimmed_token);
            let text = string_of(&value);
            if header_value_accepts(text.as_str()) {
                headers.push(Header { name: "authorization".to_owned(), value: text });
            }
        },
        None => {},
    }
    proof {
        assert(header_views(headers@) == auth_headers(opt_str(token)));
    }
    let ghost before = headers@;
    let accept = header("accept", "application/vnd.github.v3+json");
    headers.push(accept);
    let agent = header("user-agent", "UniCreate/1.0");
    headers.push(agent);
    proof {
        assert(headers@ == before.push(accept).push(agent));
        assert(header_views(headers@) == header_views(before).push(accept@).push(agent@));
    }
    headers
}

/// The headers of a request that carries a token.
pub fn build_headers(token: &str) -> (headers: Vec<Header>)
    ensures
        header_views(headers@) == api_headers(Some(token@)),
{
    build_headers_optional(Some(token))
}

} // verus!
