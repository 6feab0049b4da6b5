use vstd::prelude::*;
use vstd::utf8::encode_utf8;

verus! {

/// Why a request the user interface asked for could not be prepared.
#[derive(PartialEq, Eq, Structural, Clone, Copy, Debug)]
pub enum RequestError {
    /// A header name was not a string.
    MissingHeaderKey,
    /// A header name is not a valid HTTP header name.
    InvalidHeaderName,
    /// A header value was not a string.
    MissingHeaderValue,
    /// A header value (or the user agent) is not a valid HTTP header value.
    InvalidHeaderValue,
    /// The address was not a string.
    MissingUrl,
    /// The address is not a valid URI.
    InvalidUri,
}

/// A request ready to be sent: its address and the headers to set, in the
/// order in which they are set (a later header replaces an earlier one of
/// the same name). Every name, value and the address have been validated.
pub struct PreparedRequest {
    pub uri: String,
    pub headers: Vec<(String, String)>,
}

/// The address of the public server list.
pub const SERVER_LIST_URI: &'static str = "https://serverlist.renegade-x.com/servers.jsp?id=launcher";

/// The user agent sent when the launcher downloads its own update.
pub const SELF_UPDATE_USER_AGENT: &'static str = "sonny-launcher/1.0";

/// The user agent of the launcher's other requests.
pub open spec fn user_agent_text(version: Seq<char>) -> Seq<char> {
    "RenX-Launcher ("@ + version + ")"@
}

/// A byte that may stand in an HTTP header name: a letter (either case), a
/// digit, or one of ``!"#$%&'*+-.^_`|~``.
pub open spec fn header_name_byte(b: u8) -> bool {
    ||| 33 <= b <= 39
    ||| b == 42
    ||| b == 43
    ||| b == 45
    ||| b == 46
    ||| 48 <= b <= 57
    ||| 65 <= b <= 90
    ||| 94 <= b <= 122
    ||| b == 124
    ||| b == 126
}

/// Whether a text is a valid HTTP header name: its UTF-8 encoding is 1 to
/// 65535 bytes long and every byte may stand in a header name.
pub open spec fn header_name_valid(name: Seq<char>) -> bool {
    &&& 1 <= encode_utf8(name).len() <= 65535
    &&& forall|i: int| 0 <= i < encode_utf8(name).len() ==> header_name_byte(#[trigger] encode_utf8(name)[i])
}

/// Whether a text is a valid URI (as `http::Uri` parses it).
pub uninterp spec fn uri_valid(text: Seq<char>) -> bool;

/// A byte that may stand in an HTTP header value: visible ASCII, space,
/// tab, or any byte from 0x80 on.
pub open spec fn header_value_byte(b: u8) -> bool {
    (b >= 32 && b != 127) || b == 9
}

/// Whether a text is a valid HTTP header value: every byte of its UTF-8
/// encoding may stand in a header value.
pub open spec fn header_value_valid(value: Seq<char>) -> bool {
    forall|i: int| 0 <= i < encode_utf8(value).len() ==> header_value_byte(#[trigger] encode_utf8(value)[i])
}

/// The first problem among the header pairs, if any, checked pair by pair in
/// order: the name is missing, then not a valid name, then the value is
/// missing, then not a valid value.
pub open spec fn header_problem(items: Seq<(Option<String>, Option<String>)>) -> Option<RequestError>
    decreases items.len(),
{
    if items.len() == 0 {
        None
    } else if items[0].0 is None {
        Some(RequestError::MissingHeaderKey)
    } else if !header_name_valid(items[0].0->Some_0@) {
        Some(RequestError::InvalidHeaderName)
    } else if items[0].1 is None {
        Some(RequestError::MissingHeaderValue)
    } else if !header_value_valid(items[0].1->Some_0@) {
        Some(RequestError::InvalidHeaderValue)
    } else {
        header_problem(items.drop_first())
    }
}

/// The first problem of a whole request, if any: the header pairs, then the
/// user agent, then the address (missing, then not a valid URI).
pub open spec fn request_problem(
    url: Option<String>,
    items: Seq<(Option<String>, Option<String>)>,
    version: Seq<char>,
) -> Option<RequestError> {
    if header_problem(items) is Some {
        header_problem(items)
    } else if !header_value_valid(user_agent_text(version)) {
        Some(RequestError::InvalidHeaderValue)
    } else if url is None {
        Some(RequestError::MissingUrl)
    } else if !uri_valid(url->Some_0@) {
        Some(RequestError::InvalidUri)
    } else {
        None
    }
}

/// The header pairs as text, for pairs that are all present.
pub open spec fn header_texts(items: Seq<(Option<String>, Option<String>)>) -> Seq<(Seq<char>, Seq<char>)> {
    items.map_values(|p: (Option<String>, Option<String>)| (p.0->Some_0@, p.1->Some_0@))
}

/// The error message the user interface's log receives.
pub open spec fn request_error_text(e: RequestError) -> Seq<char> {
    match e {
        RequestError::MissingHeaderKey => "Key value was empty."@,
        RequestError::InvalidHeaderName => "invalid HTTP header name"@,
        RequestError::MissingHeaderValue => "header value was empty."@,
        RequestError::InvalidHeaderValue => "failed to parse header value"@,
        RequestError::MissingUrl => "Couldn't parse url as string."@,
        RequestError::InvalidUri => "invalid URI"@,
    }
}

/// Whether `s` parses as `http::header::HeaderName` (through the `http`
/// crate that `download_async` re-exports). Claimed: it does exactly when
/// `s` is 1 to 65535 bytes long and every byte has a non-zero entry in the
/// crate's `HEADER_CHARS` table (stated as `header_name_byte`).
#[verifier::external_body]
fn parses_as_header_name(s: &str) -> (ok: bool)
    ensures
        ok == header_name_valid(s@),
{
    s.parse::<download_async::http::header::HeaderName>().is_ok()
}

/// Whether `s` parses as `http::header::HeaderValue`. Claimed: it does
/// exactly when every byte of `s` is a tab, or at least 32 and not 127,
/// which is the test `HeaderValue::from_str` applies to each byte.
#[verifier::external_body]
fn parses_as_header_value(s: &str) -> (ok: bool)
    ensures
        ok == header_value_valid(s@),
{
    s.parse::<download_async::http::header::HeaderValue>().is_ok()
}

/// Whether `s` parses as `http::Uri`. Claimed: the answer depends on the
/// text alone (named `uri_valid`).
#[verifier::external_body]
pub(crate) fn parses_as_uri(s: &str) -> (ok: bool)
    ensures
        ok == uri_valid(s@),
{
    s.parse::<download_async::http::Uri>().is_ok()
}

/// The user agent of the launcher's requests for launcher `version`.
pub fn user_agent(version: &str) -> (agent: String)
    ensures
        agent@ == user_agent_text(version@),
{
    let mut agent = String::new();
    agent.append("RenX-Launcher (");
    agent.append(version);
    agent.append(")");
    assert(agent@ =~= user_agent_text(version@));
    agent
}

impl RequestError {
    /// The message of the error.
    pub fn message(&self) -> (text: String)
        ensures
            text@ == request_error_text(*self),
    {
        match self {
            RequestError::MissingHeaderKey => "Key value was empty.".to_owned(),
            RequestError::InvalidHeaderName => "invalid HTTP header name".to_owned(),
            RequestError::MissingHeaderValue => "header value was empty.".to_owned(),
            RequestError::InvalidHeaderValue => "failed to parse header value".to_owned(),
            RequestError::MissingUrl => "Couldn't parse url as string.".to_owned(),
            RequestError::InvalidUri => "invalid URI".to_owned(),
        }
    }
}

/// Prepares a resource request from what the user interface handed over:
/// the address (`None` when it was not a string) and the header pairs (each
/// part `None` when it was not a string). The headers are checked first,
/// pair by pair, then the user agent, then the address (see
/// `request_problem`); the launcher's user agent is set after the given
/// headers, so it replaces one of the same name.
pub fn prepare_request(
    url: Option<String>,
    headers: Vec<(Option<String>, Option<String>)>,
    version: &str,
) -> (result: Result<PreparedRequest, RequestError>)
    ensures
        request_problem(url, headers@, version@) matches Some(e) ==> result == Err::<
            PreparedRequest,
            RequestError,
        >(e),
        request_problem(url, headers@, version@) is None ==> (result matches Ok(req) && req.uri@
            == url->Some_0@ && req.headers@.len() == headers@.len() + 1 && (forall|i: int|
            0 <= i < headers@.len() ==> (#[trigger] req.headers@[i]).0@ == header_texts(headers@)[i].0
                && req.headers@[i].1@ == header_texts(headers@)[i].1) && req.headers@.last().0@
            == "User-Agent"@ && req.headers@.last().1@ == user_agent_text(version@)),
{
    let mut out: Vec<(String, String)> = Vec::new();
    let n = headers.len();
    let mut i: usize = 0;
    assert(headers@.skip(0) =~= headers@);
    while i < n
        invariant
            n == headers@.len(),
            i <= n,
            out@.len() == i,
            header_problem(headers@) == header_problem(headers@.skip(i as int)),
            forall|k: int|
                0 <= k < i ==> (#[trigger] out@[k]).0@ == header_texts(headers@)[k].0 && out@[k].1@
                    == header_texts(headers@)[k].1,
        decreases n - i,
    {
        let ghost rest = headers@.skip(i as int);
        assert(rest[0] == headers@[i as int]);
        assert(rest.drop_first() =~= headers@.skip(i + 1));
        match &headers[i].0 {
            None => {
                return Err(RequestError::MissingHeaderKey);
            },
            Some(key) => {
                if !parses_as_header_name(key.as_str()) {
                    return Err(RequestError::InvalidHeaderName);
                }
                match &headers[i].1 {
                    None => {
                        return Err(RequestError::MissingHeaderValue);
                    },
                    Some(value) => {
                        if !parses_as_header_value(value.as_str()) {
                            return Err(RequestError::InvalidHeaderValue);
                        }
                        out.push((key.clone(), value.clone()));
                    },
                }
            },
        }
        i = i + 1;
    }
    assert(headers@.skip(n as int).len() == 0);
    let agent = user_agent(version);
    if !parses_as_header_value(agent.as_str()) {
        return Err(RequestError::InvalidHeaderValue);
    }
    out.push(("User-Agent".to_owned(), agent));
    match url {
        None => Err(RequestError::MissingUrl),
        Some(uri) => {
            if !parses_as_uri(uri.as_str()) {
                return Err(RequestError::InvalidUri);
            }
            Ok(PreparedRequest { uri, headers: out })
        },
    }
}

} // verus!
