//! The hosted HTTP client: base URL handling, request construction, header
//! validation, and reading the status line that the command transport appends
//! to a response body.
use vstd::prelude::*;

use crate::text::{
    match_at, ascii_lowercase, chars_of, contains, contains_chars, decimal, extend_chars, extend_str,
    lowercase_ascii, parse_u16, rfind, rfind_chars, slice_of, string_of, trim, trim_chars,
    unsigned_literal,
};

verus! {

// ---------------------------------------------------------------------------
// URL parsing (the `url` crate)
// ---------------------------------------------------------------------------

#[verifier::external_type_specification]
#[verifier::external_body]
pub struct ExUrlParseError(url::ParseError);

/// Whether `url::Url::parse` accepts the text (a WHATWG URL parse).
pub uninterp spec fn url_parses(input: Seq<char>) -> bool;

/// The scheme that `url::Url::parse` reads from the text.
pub uninterp spec fn url_scheme(input: Seq<char>) -> Seq<char>;

/// Calls `url::Url::parse`; the contract claims only that acceptance is a
/// function of the input text.
#[verifier::external_body]
pub(crate) fn parse_url(input: &str) -> (r: Result<(), url::ParseError>)
    ensures
        r is Ok <==> url_parses(input@),
{
    url::Url::parse(input).map(|_| ())
}

/// The text of the error `url::Url::parse` reports for the text.
pub uninterp spec fn url_parse_error(input: Seq<char>) -> Seq<char>;

/// Calls `url::Url::parse` and reads `Url::scheme` of the result, or the
/// error's `Display` text; the contract claims that acceptance, the scheme
/// and the error text are functions of the input.
#[verifier::external_body]
pub(crate) fn parse_url_scheme(input: &str) -> (r: Result<String, String>)
    ensures
        r is Ok <==> url_parses(input@),
        r matches Ok(scheme) ==> scheme@ == url_scheme(input@),
        r matches Err(message) ==> message@ == url_parse_error(input@),
{
    match url::Url::parse(input) {
        Ok(url) => Ok(url.scheme().to_owned()),
        Err(error) => Err(error.to_string()),
    }
}

// ---------------------------------------------------------------------------
// Requests and responses
// ---------------------------------------------------------------------------

#[derive(Clone, Copy, Debug, Eq, PartialEq)]
pub enum HttpMethod {
    Get,
    Post,
    Delete,
}

pub open spec fn method_name(method: HttpMethod) -> Seq<char> {
    match method {
        HttpMethod::Get => seq!['G', 'E', 'T'],
        HttpMethod::Post => seq!['P', 'O', 'S', 'T'],
        HttpMethod::Delete => seq!['D', 'E', 'L', 'E', 'T', 'E'],
    }
}

impl HttpMethod {
    pub fn as_str(self) -> (r: &'static str)
        ensures
            r@ == method_name(self),
    {
        proof {
            reveal_strlit("GET");
            reveal_strlit("POST");
            reveal_strlit("DELETE");
        }
        match self {
            HttpMethod::Get => "GET",
            HttpMethod::Post => "POST",
            HttpMethod::Delete => "DELETE",
        }
    }
}

#[derive(Eq, PartialEq)]
pub struct HostedHttpHeader {
    pub name: String,
    pub value: String,
}

impl HostedHttpHeader {
    pub fn new(name: &str, value: &str) -> (h: Self)
        ensures
            h.name@ == name@,
            h.value@ == value@,
    {
        HostedHttpHeader { name: name.to_owned(), value: value.to_owned() }
    }

    /// The debug rendering, with sensitive header values redacted.
    pub fn debug_string(&self) -> (r: String)
        ensures
            r@ == header_debug(self),
    {
        let mut out = chars_of("HostedHttpHeader { name: ");
        extend_str(&mut out, debug_str(self.name.as_str()).as_str());
        extend_str(&mut out, ", value: ");
        if sensitive_header_name(self.name.as_str()) {
            extend_str(&mut out, debug_str("[redacted]").as_str());
        } else {
            extend_str(&mut out, debug_str(self.value.as_str()).as_str());
        }
        extend_str(&mut out, " }");
        string_of(&out)
    }
}

/// The `Debug` rendering of a string (quoted and escaped).
pub uninterp spec fn str_debug(s: Seq<char>) -> Seq<char>;

/// How a header is shown in logs: a sensitive value is replaced by
/// `[redacted]`.
pub open spec fn header_debug(h: &HostedHttpHeader) -> Seq<char> {
    "HostedHttpHeader { name: "@ + str_debug(h.name@) + ", value: "@ + str_debug(
        if is_sensitive_header_name(h.name@) {
            "[redacted]"@
        } else {
            h.value@
        },
    ) + " }"@
}

/// The shown headers of `headers[..n]`, separated by `, `.
pub open spec fn headers_debug(headers: Seq<HostedHttpHeader>, n: int) -> Seq<char>
    decreases n,
{
    if n <= 0 {
        Seq::empty()
    } else if n == 1 {
        header_debug(&headers[0])
    } else {
        headers_debug(headers, n - 1) + ", "@ + header_debug(&headers[n - 1])
    }
}

pub open spec fn method_debug(method: HttpMethod) -> Seq<char> {
    match method {
        HttpMethod::Get => "Get"@,
        HttpMethod::Post => "Post"@,
        HttpMethod::Delete => "Delete"@,
    }
}

/// How a request is shown in logs: the body never appears, only whether
/// there is one.
pub open spec fn request_debug(r: &HostedHttpRequest) -> Seq<char> {
    "HostedHttpRequest { method: "@ + method_debug(r.method) + ", url: "@ + str_debug(r.url@)
        + ", headers: ["@ + headers_debug(r.headers@, r.headers@.len() as int) + "], body: "@ + (
    if r.body is Some {
        "Some("@ + str_debug("[redacted body present]"@) + ")"@
    } else {
        "None"@
    }) + " }"@
}

/// Calls `<str as Debug>::fmt` through `format!`; the contract claims only
/// that the rendering is a function of the text.
#[verifier::external_body]
pub(crate) fn debug_str(s: &str) -> (r: String)
    ensures
        r@ == str_debug(s@),
{
    format!("{s:?}")
}

#[derive(Eq, PartialEq)]
pub struct HostedHttpRequest {
    pub method: HttpMethod,
    pub url: String,
    pub headers: Vec<HostedHttpHeader>,
    pub body: Option<String>,
}

impl HostedHttpRequest {
    /// The debug rendering: sensitive header values are redacted and the
    /// body is never shown.
    pub fn debug_string(&self) -> (r: String)
        ensures
            r@ == request_debug(self),
    {
        let mut out = chars_of("HostedHttpRequest { method: ");
        let method = match self.method {
            HttpMethod::Get => "Get",
            HttpMethod::Post => "Post",
            HttpMethod::Delete => "Delete",
        };
        extend_str(&mut out, method);
        extend_str(&mut out, ", url: ");
        extend_str(&mut out, debug_str(self.url.as_str()).as_str());
        extend_str(&mut out, ", headers: [");
        let ghost head = out@;
        let mut i: usize = 0;
        while i < self.headers.len()
            invariant
                i <= self.headers@.len(),
                out@ == head + headers_debug(self.headers@, i as int),
            decreases self.headers.len() - i,
        {
            if i > 0 {
                extend_str(&mut out, ", ");
            }
            extend_str(&mut out, self.headers[i].debug_string().as_str());
            proof {
                if i == 0 {
                    assert(headers_debug(self.headers@, 1) == header_debug(&self.headers@[0]));
                }
            }
            assert(out@ =~= head + headers_debug(self.headers@, i + 1));
            i += 1;
        }
        extend_str(&mut out, "], body: ");
        match &self.body {
            Some(_) => {
                extend_str(&mut out, "Some(");
                extend_str(&mut out, debug_str("[redacted body present]").as_str());
                extend_str(&mut out, ")");
            },
            None => extend_str(&mut out, "None"),
        }
        extend_str(&mut out, " }");
        string_of(&out)
    }
}

#[derive(Eq, PartialEq)]
pub struct HostedHttpResponse {
    pub status: u16,
    pub body: String,
}

impl HostedHttpResponse {
    /// The debug rendering: the status and the body's length only.
    pub fn debug_string(&self) -> (r: String)
        ensures
            r@ == "HostedHttpResponse { status: "@ + decimal(self.status as nat) + ", body: "@
                + decimal((vstd::utf8::encode_utf8(self.body@).len() as usize) as nat) + " bytes }"@,
    {
        let mut out = chars_of("HostedHttpResponse { status: ");
        let status = crate::text::decimal_chars(self.status as u64);
        extend_chars(&mut out, &status);
        extend_str(&mut out, ", body: ");
        let len = crate::text::decimal_chars(self.body.as_str().len() as u64);
        extend_chars(&mut out, &len);
        extend_str(&mut out, " bytes }");
        string_of(&out)
    }
}

/// Why a hosted HTTP request could not be made or read.
#[derive(Debug)]
pub enum HostedHttpError {
    InvalidUrl(url::ParseError),
    TransportSpawn { command: String, message: String },
    TransportFailed { command: String, status: Option<i32>, stderr: String },
    TransportDecode { message: String },
    InvalidHeaderName { name: String, message: String },
    InvalidHeaderValue { name: String, message: String },
}

/// Something that sends hosted HTTP requests.
pub trait HostedTransport {
    /// `r` is an answer this transport may give to `request`.
    spec fn answers(
        &self,
        request: HostedHttpRequest,
        r: Result<HostedHttpResponse, HostedHttpError>,
    ) -> bool;

    /// Sends `request` and hands back the answer.
    fn send(&self, request: HostedHttpRequest) -> (r: Result<HostedHttpResponse, HostedHttpError>)
        ensures
            self.answers(request, r),
    ;
}

// ---------------------------------------------------------------------------
// Headers
// ---------------------------------------------------------------------------

/// A header whose value must not appear in logs.
pub open spec fn is_sensitive_header_name(name: Seq<char>) -> bool {
    let n = ascii_lowercase(name);
    n == seq!['a', 'u', 't', 'h', 'o', 'r', 'i', 'z', 'a', 't', 'i', 'o', 'n'] || n == seq![
        'p',
        'r',
        'o',
        'x',
        'y',
        '-',
        'a',
        'u',
        't',
        'h',
        'o',
        'r',
        'i',
        'z',
        'a',
        't',
        'i',
        'o',
        'n',
    ] || contains(n, seq!['t', 'o', 'k', 'e', 'n']) || contains(
        n,
        seq!['s', 'e', 'c', 'r', 'e', 't'],
    ) || contains(n, seq!['a', 'p', 'i', '-', 'k', 'e', 'y'])
}

/// Whether a header's value must be redacted.
pub fn sensitive_header_name(name: &str) -> (b: bool)
    ensures
        b == is_sensitive_header_name(name@),
{
    let raw = chars_of(name);
    let n = lowercase_ascii(&raw);
    let authorization = chars_of("authorization");
    let proxy = chars_of("proxy-authorization");
    let token = chars_of("token");
    let secret = chars_of("secret");
    let api_key = chars_of("api-key");
    proof {
        reveal_strlit("authorization");
        reveal_strlit("proxy-authorization");
        reveal_strlit("token");
        reveal_strlit("secret");
        reveal_strlit("api-key");
        assert(authorization@ =~= seq!['a', 'u', 't', 'h', 'o', 'r', 'i', 'z', 'a', 't', 'i', 'o', 'n']);
        assert(proxy@ =~= seq![
            'p', 'r', 'o', 'x', 'y', '-', 'a', 'u', 't', 'h', 'o', 'r', 'i', 'z', 'a', 't', 'i', 'o', 'n',
        ]);
        assert(token@ =~= seq!['t', 'o', 'k', 'e', 'n']);
        assert(secret@ =~= seq!['s', 'e', 'c', 'r', 'e', 't']);
        assert(api_key@ =~= seq!['a', 'p', 'i', '-', 'k', 'e', 'y']);
    }
    crate::text::chars_eq(&n, &authorization) || crate::text::chars_eq(&n, &proxy)
        || contains_chars(&n, &token) || contains_chars(&n, &secret) || contains_chars(
        &n,
        &api_key,
    )
}

/// A `tchar` of RFC 9110: the characters allowed in header names.
pub open spec fn is_header_token_char(c: char) -> bool {
    crate::text::is_ascii_alnum(c) || c == '!' || c == '#' || c == '$' || c == '%' || c == '&'
        || c == '\'' || c == '*' || c == '+' || c == '-' || c == '.' || c == '^' || c == '_'
        || c == '`' || c == '|' || c == '~'
}

pub fn is_header_token_byte(c: char) -> (b: bool)
    ensures
        b == is_header_token_char(c),
{
    crate::text::ascii_alnum(c) || c == '!' || c == '#' || c == '$' || c == '%' || c == '&' || c
        == '\'' || c == '*' || c == '+' || c == '-' || c == '.' || c == '^' || c == '_' || c == '`'
        || c == '|' || c == '~'
}

/// A header is sent only with a non-empty token name (after trimming) and a
/// value without line breaks.
pub open spec fn header_name_ok(name: Seq<char>) -> bool {
    let t = trim(name);
    t.len() > 0 && forall|i: int| 0 <= i < t.len() ==> is_header_token_char(#[trigger] t[i])
}

pub open spec fn header_value_ok(value: Seq<char>) -> bool {
    !value.contains('\r') && !value.contains('\n')
}

fn has_line_break(v: &Vec<char>) -> (b: bool)
    ensures
        b == (v@.contains('\r') || v@.contains('\n')),
{
    let mut i: usize = 0;
    while i < v.len()
        invariant
            i <= v.len(),
            forall|j: int| 0 <= j < i ==> v@[j] != '\r' && v@[j] != '\n',
        decreases v.len() - i,
    {
        if v[i] == '\r' || v[i] == '\n' {
            assert(v@[i as int] == v[i as int]);
            return true;
        }
        i += 1;
    }
    false
}

/// The error that refuses `header`: a bad name is reported before a bad value.
pub open spec fn refuses_header(e: HostedHttpError, header: &HostedHttpHeader) -> bool {
    match e {
        HostedHttpError::InvalidHeaderName { name, .. } => !header_name_ok(header.name@)
            && name@ == header.name@,
        HostedHttpError::InvalidHeaderValue { name, .. } => header_name_ok(header.name@)
            && !header_value_ok(header.value@) && name@ == header.name@,
        _ => false,
    }
}

/// Checks a header before it reaches a command line.
pub fn validate_header(header: &HostedHttpHeader) -> (r: Result<(), HostedHttpError>)
    ensures
        r is Ok <==> header_name_ok(header.name@) && header_value_ok(header.value@),
        r matches Err(e) ==> refuses_header(e, header),
{
    let raw = chars_of(header.name.as_str());
    let name = trim_chars(&raw);
    let mut ok = name.len() > 0;
    let mut i: usize = 0;
    while ok && i < name.len()
        invariant
            i <= name.len(),
            ok ==> name@.len() > 0 && forall|j: int| 0 <= j < i ==> is_header_token_char(
                #[trigger] name@[j],
            ),
            !ok ==> !header_name_ok(header.name@),
            name@ == trim(header.name@),
        decreases name.len() - i,
    {
        if !is_header_token_byte(name[i]) {
            ok = false;
        }
        i += 1;
    }
    if !ok {
        return Err(
            HostedHttpError::InvalidHeaderName {
                name: header.name.clone(),
                message: "header names must be HTTP token characters".to_owned(),
            },
        );
    }
    let value = chars_of(header.value.as_str());
    if has_line_break(&value) {
        return Err(
            HostedHttpError::InvalidHeaderValue {
                name: header.name.clone(),
                message: "header values must not contain line breaks".to_owned(),
            },
        );
    }
    Ok(())
}

// ---------------------------------------------------------------------------
// The command transport
// ---------------------------------------------------------------------------

/// Sends requests through an external `curl`-compatible command.
#[derive(Debug)]
pub struct CommandHttpTransport {
    pub command: String,
}

pub open spec fn status_marker() -> Seq<char> {
    seq![
        '\n',
        '_',
        '_',
        'R',
        'U',
        'N',
        'X',
        '_',
        'H',
        'T',
        'T',
        'P',
        '_',
        'S',
        'T',
        'A',
        'T',
        'U',
        'S',
        '_',
        '_',
        ':',
    ]
}

/// One header as a `--header` argument: `<trimmed name>: <value>`.
pub open spec fn header_argument(header: &HostedHttpHeader) -> Seq<char> {
    trim(header.name@) + seq![':', ' '] + header.value@
}

/// The arguments before the headers.
pub open spec fn leading_arguments(method: HttpMethod) -> Seq<Seq<char>> {
    seq![
        "--silent"@,
        "--show-error"@,
        "--request"@,
        method_name(method),
        "--output"@,
        "-"@,
        "--write-out"@,
        "\n__RUNX_HTTP_STATUS__:%{http_code}"@,
    ]
}

/// The `--header` arguments for `headers[..n]`.
pub open spec fn header_arguments(headers: Seq<HostedHttpHeader>, n: int) -> Seq<Seq<char>>
    decreases n,
{
    if n <= 0 {
        Seq::empty()
    } else {
        header_arguments(headers, n - 1) + seq!["--header"@, header_argument(&headers[n - 1])]
    }
}

/// The whole command line after the command: fixed options, headers, the
/// body switch when there is a body, and the URL after `--`.
pub open spec fn command_arguments(request: &HostedHttpRequest) -> Seq<Seq<char>> {
    leading_arguments(request.method) + header_arguments(
        request.headers@,
        request.headers@.len() as int,
    ) + (if request.body is Some {
        seq!["--data-binary"@, "@-"@]
    } else {
        Seq::empty()
    }) + seq!["--"@, request.url@]
}

/// The view of a vector of strings.
pub open spec fn strings_view(v: Seq<String>) -> Seq<Seq<char>> {
    v.map_values(|s: String| s@)
}

fn push_string(args: &mut Vec<String>, s: String)
    ensures
        strings_view(final(args)@) == strings_view(old(args)@).push(s@),
{
    let ghost before = strings_view(args@);
    args.push(s);
    assert(strings_view(args@) =~= before.push(s@));
}

impl CommandHttpTransport {
    pub fn new() -> (t: Self)
        ensures
            t.command@ == "curl"@,
    {
        CommandHttpTransport { command: "curl".to_owned() }
    }

    pub fn with_command(command: &str) -> (t: Self)
        ensures
            t.command@ == command@,
    {
        CommandHttpTransport { command: command.to_owned() }
    }

    /// The arguments for the transport command. Every header is validated
    /// first; the first invalid one is refused.
    pub fn request_arguments(&self, request: &HostedHttpRequest) -> (r: Result<
        Vec<String>,
        HostedHttpError,
    >)
        ensures
            r matches Ok(args) ==> strings_view(args@) == command_arguments(request) && forall|
                i: int,
            |
                0 <= i < request.headers@.len() ==> header_name_ok(
                    #[trigger] request.headers@[i].name@,
                ) && header_value_ok(request.headers@[i].value@),
            r matches Err(e) ==> exists|k: int|
                0 <= k < request.headers@.len() && refuses_header(e, #[trigger] &request.headers@[k])
                    && forall|j: int|
                    0 <= j < k ==> header_name_ok(#[trigger] request.headers@[j].name@)
                        && header_value_ok(request.headers@[j].value@),
    {
        let mut args: Vec<String> = Vec::new();
        push_string(&mut args, "--silent".to_owned());
        push_string(&mut args, "--show-error".to_owned());
        push_string(&mut args, "--request".to_owned());
        push_string(&mut args, request.method.as_str().to_owned());
        push_string(&mut args, "--output".to_owned());
        push_string(&mut args, "-".to_owned());
        push_string(&mut args, "--write-out".to_owned());
        push_string(&mut args, "\n__RUNX_HTTP_STATUS__:%{http_code}".to_owned());
        assert(strings_view(args@) =~= leading_arguments(request.method));
        let mut i: usize = 0;
        while i < request.headers.len()
            invariant
                i <= request.headers@.len(),
                strings_view(args@) == leading_arguments(request.method) + header_arguments(
                    request.headers@,
                    i as int,
                ),
                forall|j: int|
                    0 <= j < i ==> header_name_ok(#[trigger] request.headers@[j].name@)
                        && header_value_ok(request.headers@[j].value@),
            decreases request.headers.len() - i,
        {
            let header = &request.headers[i];
            let checked = validate_header(header);
            match checked {
                Ok(()) => {
                    assert forall|j: int|
                        0 <= j < i + 1 implies header_name_ok(
                        #[trigger] request.headers@[j].name@,
                    ) && header_value_ok(request.headers@[j].value@) by {
                        if j == i {
                            assert(request.headers@[j] == *header);
                        }
                    }
                },
                Err(e) => {
                    assert(refuses_header(e, &request.headers@[i as int]));
                    return Err(e);
                },
            }
            push_string(&mut args, "--header".to_owned());
            let mut line = trim_chars(&chars_of(header.name.as_str()));
            line.push(':');
            line.push(' ');
            extend_str(&mut line, header.value.as_str());
            assert(line@ =~= header_argument(&request.headers@[i as int]));
            push_string(&mut args, string_of(&line));
            assert(strings_view(args@) =~= leading_arguments(request.method) + header_arguments(
                request.headers@,
                i + 1,
            ));
            i += 1;
        }
        if request.body.is_some() {
            push_string(&mut args, "--data-binary".to_owned());
            push_string(&mut args, "@-".to_owned());
        }
        push_string(&mut args, "--".to_owned());
        push_string(&mut args, request.url.clone());
        assert(strings_view(args@) =~= command_arguments(request));
        Ok(args)
    }
}

// ---------------------------------------------------------------------------
// Reading transport output
// ---------------------------------------------------------------------------

/// What `str::parse::<u16>` reports for text that is not a `u16`.
pub open spec fn parse_int_error_message(t: Seq<char>) -> Seq<char> {
    if t.len() == 0 {
        "cannot parse integer from empty string"@
    } else if unsigned_literal(t) is None {
        "invalid digit found in string"@
    } else {
        "number too large to fit in target type"@
    }
}

/// Splits transport output at the last status marker: the body before it and
/// the trimmed status code after it.
pub open spec fn transport_output(stdout: Seq<char>) -> Result<(Seq<char>, u16), Seq<char>> {
    match rfind(stdout, status_marker()) {
        None => Err("transport did not report an HTTP status"@),
        Some(k) => {
            let t = trim(stdout.subrange(k + status_marker().len(), stdout.len() as int));
            match unsigned_literal(t) {
                Some(v) => if v <= u16::MAX {
                    Ok((stdout.subrange(0, k), v as u16))
                } else {
                    Err(parse_int_error_message(t))
                },
                None => Err(parse_int_error_message(t)),
            }
        },
    }
}

/// Reads the body and status code from transport output.
pub fn parse_transport_output(stdout: &str) -> (r: Result<(String, u16), HostedHttpError>)
    ensures
        r matches Ok((body, status)) ==> transport_output(stdout@) == Ok::<
            (Seq<char>, u16),
            Seq<char>,
        >((body@, status)),
        r matches Err(e) ==> (e matches HostedHttpError::TransportDecode { message }
            && transport_output(stdout@) == Err::<(Seq<char>, u16), Seq<char>>(message@)),
{
    let s = chars_of(stdout);
    let marker = chars_of("\n__RUNX_HTTP_STATUS__:");
    proof {
        reveal_strlit("\n__RUNX_HTTP_STATUS__:");
        assert(marker@ =~= status_marker());
        reveal_strlit("transport did not report an HTTP status");
        reveal_strlit("cannot parse integer from empty string");
        reveal_strlit("invalid digit found in string");
        reveal_strlit("number too large to fit in target type");
    }
    match rfind_chars(&s, &marker) {
        None => Err(
            HostedHttpError::TransportDecode {
                message: "transport did not report an HTTP status".to_owned(),
            },
        ),
        Some(k) => {
            assert(match_at(s@, k as int, marker@));
            assert(k + marker@.len() <= s@.len());
            let mlen = marker.len();
            assert(k + mlen <= s.len());
            let after = slice_of(&s, k + mlen, s.len());
            let t = trim_chars(&after);
            match parse_u16(&t) {
                Some(status) => {
                    let body = slice_of(&s, 0, k);
                    Ok((string_of(&body), status))
                },
                None => {
                    let message = if t.len() == 0 {
                        "cannot parse integer from empty string".to_owned()
                    } else if !is_unsigned_literal(&t) {
                        "invalid digit found in string".to_owned()
                    } else {
                        "number too large to fit in target type".to_owned()
                    };
                    Err(HostedHttpError::TransportDecode { message })
                },
            }
        },
    }
}

/// The text is an unsigned literal (whatever its size).
pub(crate) fn is_unsigned_literal(t: &Vec<char>) -> (b: bool)
    ensures
        b == (unsigned_literal(t@) is Some),
{
    let start: usize = if t.len() > 0 && t[0] == '+' {
        1
    } else {
        0
    };
    if start >= t.len() {
        proof {
            if t@.len() > 0 && t@[0] == '+' {
                assert(t@.drop_first().len() == 0);
            }
        }
        return false;
    }
    let body = slice_of(t, start, t.len());
    assert(body@ =~= if t@.len() > 0 && t@[0] == '+' {
        t@.drop_first()
    } else {
        t@
    });
    crate::text::all_ascii_digits(&body)
}

// ---------------------------------------------------------------------------
// The client
// ---------------------------------------------------------------------------

/// `value` without one trailing `/`.
pub open spec fn strip_one_trailing_slash_spec(value: Seq<char>) -> Seq<char> {
    if value.len() > 0 && value.last() == '/' {
        value.drop_last()
    } else {
        value
    }
}

pub fn strip_one_trailing_slash(value: &str) -> (r: String)
    ensures
        r@ == strip_one_trailing_slash_spec(value@),
{
    let v = chars_of(value);
    if v.len() > 0 && v[v.len() - 1] == '/' {
        let t = slice_of(&v, 0, v.len() - 1);
        assert(t@ =~= v@.drop_last());
        string_of(&t)
    } else {
        value.to_owned()
    }
}

/// `route` without its leading `/` characters.
pub open spec fn trim_leading_slashes(route: Seq<char>, i: int) -> Seq<char>
    decreases route.len() - i,
{
    if 0 <= i < route.len() && route[i] == '/' {
        trim_leading_slashes(route, i + 1)
    } else if 0 <= i <= route.len() {
        route.subrange(i, route.len() as int)
    } else {
        Seq::empty()
    }
}

/// The URL of `route` under `base_url`.
pub open spec fn route_url_spec(base_url: Seq<char>, route: Seq<char>) -> Seq<char> {
    base_url + seq!['/'] + trim_leading_slashes(route, 0)
}

/// An HTTP client bound to one base URL and one transport.
pub struct HostedHttpClient<T> {
    base_url: String,
    transport: T,
}

impl<T: HostedTransport> HostedHttpClient<T> {
    pub closed spec fn base_url_view(&self) -> Seq<char> {
        self.base_url@
    }

    /// A client for `base_url` without one trailing `/`; the trimmed URL must
    /// parse.
    pub fn with_transport(base_url: &str, transport: T) -> (r: Result<Self, HostedHttpError>)
        ensures
            r is Ok <==> url_parses(strip_one_trailing_slash_spec(base_url@)),
            r matches Ok(c) ==> c.base_url_view() == strip_one_trailing_slash_spec(base_url@),
            r matches Err(e) ==> e is InvalidUrl,
    {
        let base_url = strip_one_trailing_slash(base_url);
        match parse_url(base_url.as_str()) {
            Ok(()) => Ok(HostedHttpClient { base_url, transport }),
            Err(e) => Err(HostedHttpError::InvalidUrl(e)),
        }
    }

    /// `<base>/<route without leading slashes>`; it must parse.
    pub fn route_url(&self, route: &str) -> (r: Result<String, HostedHttpError>)
        ensures
            r is Ok <==> url_parses(route_url_spec(self.base_url_view(), route@)),
            r matches Ok(u) ==> u@ == route_url_spec(self.base_url_view(), route@),
            r matches Err(e) ==> e is InvalidUrl,
    {
        let r = chars_of(route);
        let mut i: usize = 0;
        while i < r.len() && r[i] == '/'
            invariant
                i <= r.len(),
                trim_leading_slashes(r@, 0) == trim_leading_slashes(r@, i as int),
            decreases r.len() - i,
        {
            i += 1;
        }
        let tail = slice_of(&r, i, r.len());
        let mut url = chars_of(self.base_url.as_str());
        url.push('/');
        extend_chars(&mut url, &tail);
        assert(url@ =~= route_url_spec(self.base_url_view(), route@));
        let url = string_of(&url);
        match parse_url(url.as_str()) {
            Ok(()) => Ok(url),
            Err(e) => Err(HostedHttpError::InvalidUrl(e)),
        }
    }

    /// A request for `route` with no headers and no body.
    pub fn request(&self, method: HttpMethod, route: &str) -> (r: Result<
        HostedHttpRequest,
        HostedHttpError,
    >)
        ensures
            r is Ok <==> url_parses(route_url_spec(self.base_url_view(), route@)),
            r matches Ok(req) ==> req.method == method && req.url@ == route_url_spec(
                self.base_url_view(),
                route@,
            ) && req.headers@.len() == 0 && req.body is None,
    {
        let url = self.route_url(route)?;
        Ok(HostedHttpRequest { method, url, headers: Vec::new(), body: None })
    }

    /// The transport the client sends through.
    pub closed spec fn transport_spec(&self) -> T {
        self.transport
    }

    /// Sends `request`, unchanged, through the transport, and hands back its
    /// answer unchanged.
    pub fn send(&self, request: HostedHttpRequest) -> (r: Result<HostedHttpResponse, HostedHttpError>)
        ensures
            self.transport_spec().answers(request, r),
    {
        self.transport.send(request)
    }
}

} // verus!
