//! The decisions of the client that fetches the two texts to compare: where a
//! request goes, which headers it carries, and how failures read. The
//! requests themselves are made by the caller.
use vstd::prelude::*;

verus! {

/// Wire protocol spoken by the generation endpoint.
#[derive(Clone, Copy, Debug, PartialEq, Eq, Structural)]
pub enum ApiType {
    /// Chat completions (`/v1/chat/completions`).
    OpenAI,
    /// Plain generation (`/api/generate`).
    Ollama,
    /// Messages (`/v1/messages`).
    Anthropic,
}

/// Failure of a request to the generation endpoint.
#[derive(Debug)]
pub enum InjectorError {
    NetworkError(String),
    ApiError(String),
    ParseError(String),
    Timeout,
}

pub open spec fn endpoint_path_of(api: ApiType) -> Seq<char> {
    match api {
        ApiType::OpenAI => "/v1/chat/completions"@,
        ApiType::Ollama => "/api/generate"@,
        ApiType::Anthropic => "/v1/messages"@,
    }
}

/// Version of the messages protocol announced to an Anthropic endpoint.
pub open spec fn anthropic_version() -> Seq<char> {
    "2023-06-01"@
}

/// Headers a request carries beyond the body's own, as (name, value) pairs;
/// `None` when the protocol needs a key and none was given.
pub open spec fn auth_headers_of(api: ApiType, key: Option<Seq<char>>) -> Option<
    Seq<(Seq<char>, Seq<char>)>,
> {
    match api {
        ApiType::OpenAI => match key {
            Some(k) => Some(seq![("Authorization"@, "Bearer "@ + k)]),
            None => Some(Seq::empty()),
        },
        ApiType::Ollama => Some(Seq::empty()),
        ApiType::Anthropic => match key {
            Some(k) => Some(
                seq![
                    ("x-api-key"@, k),
                    ("anthropic-version"@, anthropic_version()),
                    ("content-type"@, "application/json"@),
                ],
            ),
            None => None,
        },
    }
}

pub open spec fn key_chars(key: Option<String>) -> Option<Seq<char>> {
    match key {
        Some(k) => Some(k@),
        None => None,
    }
}

/// The headers of `v`, read as characters, are `s`.
pub open spec fn headers_are(v: Seq<(String, String)>, s: Seq<(Seq<char>, Seq<char>)>) -> bool {
    &&& v.len() == s.len()
    &&& forall|i: int| 0 <= i < v.len() ==> #[trigger] v[i].0@ == s[i].0 && v[i].1@ == s[i].1
}

pub open spec fn message_of(e: InjectorError) -> Seq<char> {
    match e {
        InjectorError::NetworkError(m) => "Network error: "@ + m@,
        InjectorError::ApiError(m) => "API error: "@ + m@,
        InjectorError::ParseError(m) => "Parse error: "@ + m@,
        InjectorError::Timeout => "Request timeout"@,
    }
}

impl ApiType {
    /// Path of the generation route under the base URL.
    pub fn endpoint_path(&self) -> (r: &'static str)
        ensures
            r@ == endpoint_path_of(*self),
    {
        match self {
            ApiType::OpenAI => "/v1/chat/completions",
            ApiType::Ollama => "/api/generate",
            ApiType::Anthropic => "/v1/messages",
        }
    }
}

/// Full URL of the generation route: the base URL followed by the path.
pub fn request_url(base_url: &str, api: ApiType) -> (r: String)
    ensures
        r@ == base_url@ + endpoint_path_of(api),
{
    let path = api.endpoint_path();
    base_url.to_owned().concat(path)
}

/// Headers for a request to an endpoint of kind `api` with the optional key.
/// Anthropic endpoints need a key: without one this is an `ApiError`.
pub fn auth_headers(api: ApiType, api_key: &Option<String>) -> (r: Result<
    Vec<(String, String)>,
    InjectorError,
>)
    ensures
        match auth_headers_of(api, key_chars(*api_key)) {
            Some(s) => (r matches Ok(v) && headers_are(v@, s)),
            None => (r matches Err(InjectorError::ApiError(m))
                && m@ == "Anthropic requires API key"@),
        },
{
    let mut v: Vec<(String, String)> = Vec::new();
    match api {
        ApiType::OpenAI => {
            if let Some(k) = api_key {
                v.push(("Authorization".to_owned(), "Bearer ".to_owned().concat(k.as_str())));
            }
            Ok(v)
        },
        ApiType::Ollama => Ok(v),
        ApiType::Anthropic => match api_key {
            Some(k) => {
                v.push(("x-api-key".to_owned(), k.clone()));
                v.push(("anthropic-version".to_owned(), "2023-06-01".to_owned()));
                v.push(("content-type".to_owned(), "application/json".to_owned()));
                Ok(v)
            },
            None => Err(InjectorError::ApiError("Anthropic requires API key".to_owned())),
        },
    }
}

/// Error for a reply whose status is not a success: the status, a colon,
/// and the body.
pub fn status_error(status: &str, body: &str) -> (r: InjectorError)
    ensures
        r matches InjectorError::ApiError(m) && m@ == status@ + ": "@ + body@,
{
    InjectorError::ApiError(status.to_owned().concat(": ").concat(body))
}

/// The first text of a parsed reply; a `ParseError` when it holds none.
pub fn first_content(contents: Vec<String>) -> (r: Result<String, InjectorError>)
    ensures
        contents@.len() > 0 ==> (r matches Ok(t) && t@ == contents@[0]@),
        contents@.len() == 0 ==> (r matches Err(InjectorError::ParseError(m))
            && m@ == "No response content"@),
{
    if contents.len() > 0 {
        Ok(contents[0].clone())
    } else {
        Err(InjectorError::ParseError("No response content".to_owned()))
    }
}

impl InjectorError {
    /// Human-readable description of the failure.
    pub fn message(&self) -> (r: String)
        ensures
            r@ == message_of(*self),
    {
        match self {
            InjectorError::NetworkError(m) => "Network error: ".to_owned().concat(m.as_str()),
            InjectorError::ApiError(m) => "API error: ".to_owned().concat(m.as_str()),
            InjectorError::ParseError(m) => "Parse error: ".to_owned().concat(m.as_str()),
            InjectorError::Timeout => "Request timeout".to_owned(),
        }
    }
}

} // verus!
