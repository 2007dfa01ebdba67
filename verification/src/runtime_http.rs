//! The HTTP vocabulary that provider clients speak: methods, headers,
//! requests and responses (shown in logs without secrets), the transport
//! they are sent through, and the GitHub API URLs and headers they use.
use vstd::prelude::*;

use crate::hosted_http::{
    is_sensitive_header_name, parse_url_scheme, sensitive_header_name, str_debug, debug_str,
    url_parse_error, url_parses, url_scheme,
};
use crate::text::{
    blank_str, chars_of, concat, decimal, extend_chars, extend_str, is_blank, str_eq, string_of,
};

verus! {

#[derive(Clone, Copy, Debug, PartialEq, Eq, Structural)]
pub enum HttpMethod {
    Get,
    Post,
    Put,
    Patch,
    Delete,
}

pub open spec fn http_method_name(m: HttpMethod) -> Seq<char> {
    match m {
        HttpMethod::Get => "GET"@,
        HttpMethod::Post => "POST"@,
        HttpMethod::Put => "PUT"@,
        HttpMethod::Patch => "PATCH"@,
        HttpMethod::Delete => "DELETE"@,
    }
}

impl HttpMethod {
    pub fn as_str(self) -> (r: &'static str)
        ensures
            r@ == http_method_name(self),
    {
        match self {
            HttpMethod::Get => "GET",
            HttpMethod::Post => "POST",
            HttpMethod::Put => "PUT",
            HttpMethod::Patch => "PATCH",
            HttpMethod::Delete => "DELETE",
        }
    }
}

#[derive(PartialEq, Eq)]
pub struct RuntimeHttpHeader {
    pub name: String,
    pub value: String,
}

/// How a header is shown in logs: a sensitive value is `[redacted]`.
pub open spec fn runtime_header_debug(h: &RuntimeHttpHeader) -> Seq<char> {
    "RuntimeHttpHeader { name: "@ + str_debug(h.name@) + ", value: "@ + str_debug(
        if is_sensitive_header_name(h.name@) {
            "[redacted]"@
        } else {
            h.value@
        },
    ) + " }"@
}

impl RuntimeHttpHeader {
    pub fn new(name: &str, value: &str) -> (h: Self)
        ensures
            h.name@ == name@,
            h.value@ == value@,
    {
        RuntimeHttpHeader { name: name.to_owned(), value: value.to_owned() }
    }

    /// The debug rendering, with sensitive header values redacted.
    pub fn debug_string(&self) -> (r: String)
        ensures
            r@ == runtime_header_debug(self),
    {
        let mut out = chars_of("RuntimeHttpHeader { name: ");
        extend_str(&mut out, debug_str(self.name.as_str()).as_str());
        extend_str(&mut out, ", value: ");
        if sensitive_header_name(self.name.as_str()) {
            extend_str(&mut out, debug_str("[redacted]").as_str());
        } else {
            extend_str(&mut out, debug_str(self.value.as_str()).as_str());
        }
        extend_str(&mut out, " }");
        string_of(&out)
    }
}

#[derive(PartialEq, Eq)]
pub struct RuntimeHttpRequest {
    pub method: HttpMethod,
    pub url: String,
    pub headers: Vec<RuntimeHttpHeader>,
    pub body: Option<String>,
}

/// The shown headers of `headers[..n]`, separated by `, `.
pub open spec fn runtime_headers_debug(headers: Seq<RuntimeHttpHeader>, n: int) -> Seq<char>
    decreases n,
{
    if n <= 0 {
        Seq::empty()
    } else if n == 1 {
        runtime_header_debug(&headers[0])
    } else {
        runtime_headers_debug(headers, n - 1) + ", "@ + runtime_header_debug(&headers[n - 1])
    }
}

pub open spec fn runtime_method_debug(m: HttpMethod) -> Seq<char> {
    match m {
        HttpMethod::Get => "Get"@,
        HttpMethod::Post => "Post"@,
        HttpMethod::Put => "Put"@,
        HttpMethod::Patch => "Patch"@,
        HttpMethod::Delete => "Delete"@,
    }
}

/// How a request is shown in logs: never its body.
pub open spec fn runtime_request_debug(r: &RuntimeHttpRequest) -> Seq<char> {
    "RuntimeHttpRequest { method: "@ + runtime_method_debug(r.method) + ", url: "@ + str_debug(
        r.url@,
    ) + ", headers: ["@ + runtime_headers_debug(r.headers@, r.headers@.len() as int)
        + "], body: "@ + (if r.body is Some {
        "Some("@ + str_debug("[redacted body present]"@) + ")"@
    } else {
        "None"@
    }) + " }"@
}

impl RuntimeHttpRequest {
    /// The debug rendering: sensitive header values are redacted and the
    /// body is never shown.
    pub fn debug_string(&self) -> (r: String)
        ensures
            r@ == runtime_request_debug(self),
    {
        let mut out = chars_of("RuntimeHttpRequest { method: ");
        let method = match self.method {
            HttpMethod::Get => "Get",
            HttpMethod::Post => "Post",
            HttpMethod::Put => "Put",
            HttpMethod::Patch => "Patch",
            HttpMethod::Delete => "Delete",
        };
        extend_str(&mut out, method);
        extend_str(&mut out, ", url: ");
        extend_str(&mut out, debug_str(self.url.as_str()).as_str());
        extend_str(&mut out, ", headers: [");
        let ghost head = out@;
        let mut i: usize = 0;
        while i < self.headers.len()
            invariant
                i <= self.headers@.len(),
                out@ == head + runtime_headers_debug(self.headers@, i as int),
            decreases self.headers.len() - i,
        {
            if i > 0 {
                extend_str(&mut out, ", ");
            }
            extend_str(&mut out, self.headers[i].debug_string().as_str());
            proof {
                if i == 0 {
                    assert(runtime_headers_debug(self.headers@, 1) == runtime_header_debug(
                        &self.headers@[0],
                    ));
                }
            }
            assert(out@ =~= head + runtime_headers_debug(self.headers@, i + 1));
            i += 1;
        }
        extend_str(&mut out, "], body: ");
        match &self.body {
            Some(_) => {
                extend_str(&mut out, "Some(");
                extend_str(&mut out, debug_str("[redacted body present]").as_str());
                extend_str(&mut out, ")");
            },
            None => extend_str(&mut out, "None"),
        }
        extend_str(&mut out, " }");
        string_of(&out)
    }
}

#[derive(PartialEq, Eq)]
pub struct RuntimeHttpResponse {
    pub status: u16,
    pub body: String,
}

impl RuntimeHttpResponse {
    /// The debug rendering: the status and the body's length only.
    pub fn debug_string(&self) -> (r: String)
        ensures
            r@ == "RuntimeHttpResponse { status: "@ + decimal(self.status as nat) + ", body: "@
                + decimal((vstd::utf8::encode_utf8(self.body@).len() as usize) as nat) + " bytes }"@,
    {
        let mut out = chars_of("RuntimeHttpResponse { status: ");
        let status = crate::text::decimal_chars(self.status as u64);
        extend_chars(&mut out, &status);
        extend_str(&mut out, ", body: ");
        let len = crate::text::decimal_chars(self.body.as_str().len() as u64);
        extend_chars(&mut out, &len);
        extend_str(&mut out, " bytes }");
        string_of(&out)
    }

    /// A success status: 200 to 299.
    pub fn is_success(&self) -> (b: bool)
        ensures
            b == (200 <= self.status <= 299),
    {
        200 <= self.status && self.status <= 299
    }
}

/// Why a request could not be sent or answered.
#[derive(Clone, Debug, PartialEq, Eq)]
pub enum RuntimeHttpError {
    InvalidRequest { message: String },
    Transport { message: String },
}

impl RuntimeHttpError {
    /// The error's message.
    pub fn message(&self) -> (r: &str)
        ensures
            r@ == match self {
                RuntimeHttpError::InvalidRequest { message } => message@,
                RuntimeHttpError::Transport { message } => message@,
            },
    {
        match self {
            RuntimeHttpError::InvalidRequest { message } => message.as_str(),
            RuntimeHttpError::Transport { message } => message.as_str(),
        }
    }
}

/// Something that sends HTTP requests.
pub trait RuntimeHttpTransport {
    fn send(&self, request: RuntimeHttpRequest) -> Result<RuntimeHttpResponse, RuntimeHttpError>;
}

// ---------------------------------------------------------------------------
// GitHub API
// ---------------------------------------------------------------------------

/// The GitHub API.
pub const GITHUB_API_BASE_URL: &'static str = "https://api.github.com";

/// A base URL a GitHub client may use: it parses, with an HTTP(S) scheme.
pub open spec fn usable_base_url(base_url: Seq<char>) -> bool {
    url_parses(base_url) && (url_scheme(base_url) == "http"@ || url_scheme(base_url) == "https"@)
}

/// Why a base URL cannot be used, if it cannot.
pub open spec fn base_url_fault(base_url: Seq<char>) -> Option<Seq<char>> {
    if !url_parses(base_url) {
        Some("invalid github api base url: "@ + url_parse_error(base_url))
    } else if !(url_scheme(base_url) == "http"@ || url_scheme(base_url) == "https"@) {
        Some("github api base url must use http or https"@)
    } else {
        None
    }
}

/// Checks a base URL; the error message says why it cannot be used.
pub fn check_base_url(base_url: &str) -> (r: Result<(), String>)
    ensures
        match base_url_fault(base_url@) {
            Some(m) => r matches Err(x) && x@ == m,
            None => r is Ok,
        },
{
    match parse_url_scheme(base_url) {
        Err(message) => Err(concat("invalid github api base url: ", message.as_str())),
        Ok(scheme) => {
            if str_eq(scheme.as_str(), "http") || str_eq(scheme.as_str(), "https") {
                Ok(())
            } else {
                Err("github api base url must use http or https".to_owned())
            }
        },
    }
}

/// A token is kept only where it is not blank.
pub fn non_blank_token(token: Option<String>) -> (r: Option<String>)
    ensures
        match token {
            Some(t) => if is_blank(t@) {
                r is None
            } else {
                r matches Some(x) && x@ == t@
            },
            None => r is None,
        },
{
    match token {
        Some(t) => if blank_str(t.as_str()) {
            None
        } else {
            Some(t)
        },
        None => None,
    }
}

/// The headers of a GitHub API request: JSON, the client's user agent, the
/// API version, and the bearer token where there is one.
pub open spec fn github_headers_spec(user_agent: Seq<char>, token: Option<Seq<char>>) -> Seq<
    (Seq<char>, Seq<char>),
> {
    let base = seq![
        ("accept"@, "application/vnd.github+json"@),
        ("user-agent"@, user_agent),
        ("x-github-api-version"@, "2022-11-28"@),
    ];
    match token {
        Some(t) => base.push(("authorization"@, "Bearer "@ + t)),
        None => base,
    }
}

pub open spec fn header_pairs(headers: Seq<RuntimeHttpHeader>) -> Seq<(Seq<char>, Seq<char>)> {
    headers.map_values(|h: RuntimeHttpHeader| (h.name@, h.value@))
}

pub fn github_headers(user_agent: &str, token: &Option<String>) -> (r: Vec<RuntimeHttpHeader>)
    ensures
        header_pairs(r@) == github_headers_spec(
            user_agent@,
            match token {
                Some(t) => Some(t@),
                None => None,
            },
        ),
{
    let mut headers: Vec<RuntimeHttpHeader> = Vec::new();
    headers.push(RuntimeHttpHeader::new("accept", "application/vnd.github+json"));
    headers.push(RuntimeHttpHeader::new("user-agent", user_agent));
    headers.push(RuntimeHttpHeader::new("x-github-api-version", "2022-11-28"));
    if let Some(t) = token {
        let value = concat("Bearer ", t.as_str());
        headers.push(RuntimeHttpHeader { name: "authorization".to_owned(), value });
    }
    assert(header_pairs(headers@) =~= github_headers_spec(
        user_agent@,
        match token {
            Some(t) => Some(t@),
            None => None,
        },
    ));
    headers
}

/// What the URL of a base with `q` and `per_page` query pairs appended
/// reads as (`Url::query_pairs_mut().append_pair`).
pub uninterp spec fn url_with_query(base: Seq<char>, query: Seq<char>, per_page: Seq<char>) -> Seq<
    char,
>;

/// What the URL of a base with path segments appended reads as
/// (`Url::path_segments_mut`, `pop_if_empty`, then `extend`).
pub uninterp spec fn url_with_segments(base: Seq<char>, segments: Seq<Seq<char>>) -> Seq<char>;

/// Calls `url::Url::parse`, appends the `q` and `per_page` query pairs and
/// renders the URL; the contract names the URL as a function of the
/// arguments and the error text as `url_parse_error` of the base.
#[verifier::external_body]
pub(crate) fn append_query_pairs(base: &str, query: &str, per_page: &str) -> (r: Result<
    String,
    String,
>)
    ensures
        r is Ok <==> url_parses(base@),
        r matches Ok(u) ==> u@ == url_with_query(base@, query@, per_page@),
        r matches Err(m) ==> m@ == url_parse_error(base@),
{
    match url::Url::parse(base) {
        Ok(mut url) => {
            url.query_pairs_mut().append_pair("q", query).append_pair("per_page", per_page);
            Ok(url.to_string())
        },
        Err(error) => Err(error.to_string()),
    }
}

/// Calls `url::Url::parse`, then `path_segments_mut`, `pop_if_empty` and
/// `extend`, and renders the URL. Of a base with an HTTP(S) scheme the
/// crate never refuses path segments; the contract names the URL as a
/// function of the arguments and the error text as `url_parse_error`.
#[verifier::external_body]
pub(crate) fn append_path_segments(base: &str, segments: &Vec<String>) -> (r: Result<
    String,
    String,
>)
    requires
        url_parses(base@) ==> usable_base_url(base@),
    ensures
        r is Ok <==> url_parses(base@),
        r matches Ok(u) ==> u@ == url_with_segments(
            base@,
            segments@.map_values(|s: String| s@),
        ),
        r matches Err(m) ==> m@ == url_parse_error(base@),
{
    match url::Url::parse(base) {
        Ok(mut url) => {
            match url.path_segments_mut() {
                Ok(mut path) => {
                    path.pop_if_empty().extend(segments.iter());
                },
                Err(()) => {},
            }
            Ok(url.to_string())
        },
        Err(error) => Err(error.to_string()),
    }
}

} // verus!
