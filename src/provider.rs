//! The image provider: it prepares the one authenticated request to the
//! image-search service and reads the service's reply into the URL of the
//! first image, or into the reason there is none.

use vstd::prelude::*;

verus! {

/// Address of the image-search endpoint.
pub open spec fn endpoint_text() -> Seq<char> {
    "https://api.thecatapi.com/v1/images/search"@
}

/// Name of the header that carries the credential.
pub open spec fn key_header_text() -> Seq<char> {
    "x-api-key"@
}

/// A character that a header value may hold. Every byte of a character at
/// or above 128 is itself at or above 128 in UTF-8, so the byte rule of a
/// header value reads the same on characters.
pub open spec fn header_char_valid(c: char) -> bool {
    (c as u32 >= 32 && c as u32 != 127) || c == '\t'
}

/// Every character of `s` may stand in a header value.
pub open spec fn header_text_valid(s: Seq<char>) -> bool {
    forall|i: int| 0 <= i < s.len() ==> header_char_valid(#[trigger] s[i])
}

#[verifier::external_type_specification]
#[verifier::external_body]
pub struct ExHeaderValue(http::HeaderValue);

/// Relies on `http::HeaderValue::from_str`: it refuses the text exactly when
/// one of its bytes is below 32 (but for a tab) or is 127.
#[verifier::external_body]
fn header_value(s: &str) -> (r: Option<http::HeaderValue>)
    ensures
        r is Some <==> header_text_valid(s@),
{
    http::HeaderValue::from_str(s).ok()
}

/// What `url::Url::parse` makes of a text: the serialization of the absolute
/// URL it denotes, or nothing when it denotes none.
pub uninterp spec fn parsed_url(s: Seq<char>) -> Option<Seq<char>>;

/// Relies on `url::Url::parse`; a parsed URL is handed on as its
/// serialization (`From<Url> for String`), a refusal as the text of its
/// `ParseError`.
#[verifier::external_body]
fn parse_url(s: &str) -> (r: Result<String, String>)
    ensures
        match r {
            Ok(t) => parsed_url(s@) == Some(t@),
            Err(_) => parsed_url(s@) is None,
        },
{
    match url::Url::parse(s) {
        Ok(u) => Ok(String::from(u)),
        Err(e) => Err(e.to_string()),
    }
}

/// Configuration read once when the process starts.
#[derive(Clone, Debug, PartialEq, Eq)]
pub struct Config {
    /// The key of the image-search service, if one was given.
    pub api_key: Option<String>,
}

/// One entry of the service's reply.
#[derive(Clone, Debug, PartialEq, Eq)]
pub struct ImageSearchResult {
    pub id: String,
    pub url: String,
    pub width: u32,
    pub height: u32,
}

/// Why a configuration cannot authenticate a request.
#[derive(Clone, Debug, PartialEq, Eq)]
pub enum ConfigFault {
    /// No key, or an empty one.
    MissingCredential,
    /// A key that cannot stand in a header value.
    InvalidCredential,
}

/// How the exchange with the service failed.
#[derive(Clone, Debug, PartialEq, Eq)]
pub enum TransportFault {
    /// The request did not get an answer: connection, timeout and the like.
    Connection(String),
    /// The service answered with a status outside 200 to 299.
    Status(u16),
}

/// Why no image URL came out of a fetch.
#[derive(Clone, Debug, PartialEq, Eq)]
pub enum FetchError {
    ConfigError(ConfigFault),
    TransportError(TransportFault),
    /// The body does not have the shape of a list of entries.
    DecodeError(String),
    /// The list of entries is empty.
    EmptyResponseError,
    /// The first entry's `url` is not a URL; `reason` is the parser's word.
    InvalidURLError { url: String, reason: String },
}

/// A fetch failure as a mathematical value.
pub enum Failure {
    MissingCredential,
    InvalidCredential,
    Connection(Seq<char>),
    Status(u16),
    Decode(Seq<char>),
    EmptyResponse,
    InvalidUrl(Seq<char>),
}

impl View for FetchError {
    type V = Failure;

    open spec fn view(&self) -> Failure {
        match self {
            FetchError::ConfigError(ConfigFault::MissingCredential) => Failure::MissingCredential,
            FetchError::ConfigError(ConfigFault::InvalidCredential) => Failure::InvalidCredential,
            FetchError::TransportError(TransportFault::Connection(m)) => Failure::Connection(m@),
            FetchError::TransportError(TransportFault::Status(s)) => Failure::Status(*s),
            FetchError::DecodeError(m) => Failure::Decode(m@),
            FetchError::EmptyResponseError => Failure::EmptyResponse,
            FetchError::InvalidURLError { url, .. } => Failure::InvalidUrl(url@),
        }
    }
}

/// The outcome of a fetch as a mathematical value.
pub open spec fn outcome_view(r: Result<String, FetchError>) -> Result<Seq<char>, Failure> {
    match r {
        Ok(u) => Ok(u@),
        Err(e) => Err(e@),
    }
}

/// What came back from the one request to the service.
pub enum FetchReply {
    /// No answer: the cause as the transport put it.
    Unreachable(String),
    /// An answer with its status, and its body read as a list of entries or
    /// the reason it could not be.
    Received { status: u16, body: Result<Vec<ImageSearchResult>, String> },
}

/// The request to send: a GET of `url` with header `header_name: header_value`.
pub struct ApiRequest {
    pub url: String,
    pub header_name: String,
    pub header_value: http::HeaderValue,
    /// The key that `header_value` was made from.
    pub api_key: String,
}

pub open spec fn success_status(code: u16) -> bool {
    200 <= code <= 299
}

/// The key of a configuration, where it is usable at all.
pub open spec fn credential_of(config: Config) -> Result<Seq<char>, Failure> {
    match config.api_key {
        None => Err(Failure::MissingCredential),
        Some(k) => if k@.len() == 0 {
            Err(Failure::MissingCredential)
        } else if !header_text_valid(k@) {
            Err(Failure::InvalidCredential)
        } else {
            Ok(k@)
        },
    }
}

/// The image chosen from a list of entries: the first, if its URL parses.
pub open spec fn first_image(entries: Seq<ImageSearchResult>) -> Result<Seq<char>, Failure> {
    if entries.len() == 0 {
        Err(Failure::EmptyResponse)
    } else {
        match parsed_url(entries[0].url@) {
            Some(u) => Ok(u),
            None => Err(Failure::InvalidUrl(entries[0].url@)),
        }
    }
}

/// The outcome of a fetch, given what came back from the request.
pub open spec fn fetch_outcome(reply: FetchReply) -> Result<Seq<char>, Failure> {
    match reply {
        FetchReply::Unreachable(m) => Err(Failure::Connection(m@)),
        FetchReply::Received { status, body } => if !success_status(status) {
            Err(Failure::Status(status))
        } else {
            match body {
                Err(m) => Err(Failure::Decode(m@)),
                Ok(entries) => first_image(entries@),
            }
        },
    }
}

/// An answer with a success status whose first entry holds a URL yields
/// that URL as the parser serializes it, whatever follows the first entry.
pub proof fn first_entry_is_served(status: u16, entries: Vec<ImageSearchResult>)
    requires
        success_status(status),
        entries@.len() > 0,
        parsed_url(entries@[0].url@) is Some,
    ensures
        fetch_outcome(FetchReply::Received { status, body: Ok(entries) }) == Ok::<
            Seq<char>,
            Failure,
        >(parsed_url(entries@[0].url@)->0),
{
}

/// An answer with a success status and no entries fails as an empty
/// response.
pub proof fn empty_answer_is_reported(status: u16, entries: Vec<ImageSearchResult>)
    requires
        success_status(status),
        entries@.len() == 0,
    ensures
        fetch_outcome(FetchReply::Received { status, body: Ok(entries) }) == Err::<
            Seq<char>,
            Failure,
        >(Failure::EmptyResponse),
{
}

/// An answer whose first entry's `url` is not a URL fails as an invalid
/// URL, and the failure carries that text.
pub proof fn invalid_url_is_reported(status: u16, entries: Vec<ImageSearchResult>)
    requires
        success_status(status),
        entries@.len() > 0,
        parsed_url(entries@[0].url@) is None,
    ensures
        fetch_outcome(FetchReply::Received { status, body: Ok(entries) }) == Err::<
            Seq<char>,
            Failure,
        >(Failure::InvalidUrl(entries@[0].url@)),
{
}

/// A configuration without a key is a configuration fault, which
/// `prepare_request` returns instead of a request.
pub proof fn missing_key_is_a_config_fault(config: Config)
    requires
        config.api_key is None,
    ensures
        credential_of(config) == Err::<Seq<char>, Failure>(Failure::MissingCredential),
{
}

/// Reads a list of entries into the URL of the first one.
pub fn select_first_image(entries: &Vec<ImageSearchResult>) -> (r: Result<String, FetchError>)
    ensures
        outcome_view(r) == first_image(entries@),
        entries@.len() == 0 ==> r matches Err(FetchError::EmptyResponseError),
        entries@.len() > 0 && parsed_url(entries@[0].url@) is None ==> (r matches Err(
            FetchError::InvalidURLError { url, .. },
        ) && url@ == entries@[0].url@),
{
    if entries.len() == 0 {
        return Err(FetchError::EmptyResponseError);
    }
    let first = &entries[0];
    match parse_url(first.url.as_str()) {
        Ok(u) => Ok(u),
        Err(reason) => Err(FetchError::InvalidURLError { url: first.url.clone(), reason }),
    }
}

/// Fetches image URLs with the credential of its configuration.
pub struct ImageProvider {
    pub config: Config,
}

impl ImageProvider {
    pub fn new(config: Config) -> (r: ImageProvider)
        ensures
            r.config == config,
    {
        ImageProvider { config }
    }

    /// The request to send, or the configuration fault that forbids
    /// sending any.
    pub fn prepare_request(&self) -> (r: Result<ApiRequest, FetchError>)
        ensures
            match r {
                Ok(req) => credential_of(self.config) == Ok::<Seq<char>, Failure>(req.api_key@)
                    && req.url@ == endpoint_text() && req.header_name@ == key_header_text(),
                Err(e) => credential_of(self.config) == Err::<Seq<char>, Failure>(e@),
            },
            self.config.api_key is None ==> r matches Err(
                FetchError::ConfigError(ConfigFault::MissingCredential),
            ),
    {
        match &self.config.api_key {
            None => Err(FetchError::ConfigError(ConfigFault::MissingCredential)),
            Some(key) => {
                if key.as_str().is_empty() {
                    return Err(FetchError::ConfigError(ConfigFault::MissingCredential));
                }
                match header_value(key.as_str()) {
                    None => Err(FetchError::ConfigError(ConfigFault::InvalidCredential)),
                    Some(v) => Ok(
                        ApiRequest {
                            url: String::from_str("https://api.thecatapi.com/v1/images/search"),
                            header_name: String::from_str("x-api-key"),
                            header_value: v,
                            api_key: key.clone(),
                        },
                    ),
                }
            },
        }
    }

    /// Reads what came back from the request into the URL of the first
    /// image, or into the reason there is none.
    pub fn finish_fetch(&self, reply: &FetchReply) -> (r: Result<String, FetchError>)
        ensures
            outcome_view(r) == fetch_outcome(*reply),
    {
        match reply {
            FetchReply::Unreachable(m) => Err(
                FetchError::TransportError(TransportFault::Connection(m.clone())),
            ),
            FetchReply::Received { status, body } => {
                if *status < 200 || *status > 299 {
                    return Err(FetchError::TransportError(TransportFault::Status(*status)));
                }
                match body {
                    Err(m) => Err(FetchError::DecodeError(m.clone())),
                    Ok(entries) => select_first_image(entries),
                }
            },
        }
    }
}

} // verus!
