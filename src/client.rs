use vstd::prelude::*;
use crate::json::json_node_of;
use crate::model::ProfileResult;
use crate::parse::{read_string_field, string_field};
use crate::status::ProfileStatus;

verus! {

/// The result of one status poll: the job's status, or why none was read.
pub type ProfileStatusResult = Result<ProfileStatus, String>;

/// Why an upload produced no result handle.
#[derive(Debug, PartialEq, Eq)]
pub enum UploadError {
    /// The package could not be read; nothing was sent.
    FileError(String),
    /// The request failed in transport; the message is the transport's own.
    TransportError(String),
    /// The response was not JSON, or held no valid `apk_url`.
    ParseError(String),
}

/// Where requests go and how the client names itself.
pub struct ClientConfig {
    pub endpoint: String,
    pub user_agent: String,
}

pub open spec fn standard_endpoint() -> Seq<char> {
    "https://nimbledroid.com"@
}

pub open spec fn standard_user_agent() -> Seq<char> {
    "nimbledroidrs/0.0.1"@
}

pub open spec fn service_host() -> Seq<char> {
    "nimbledroid.com"@
}

pub open spec fn upload_path() -> Seq<char> {
    "/api/v2/apks"@
}

impl ClientConfig {
    /// The public service under the library's own client name.
    pub fn standard() -> (r: ClientConfig)
        ensures
            r.endpoint@ == standard_endpoint(),
            r.user_agent@ == standard_user_agent(),
    {
        ClientConfig {
            endpoint: String::from_str("https://nimbledroid.com"),
            user_agent: String::from_str("nimbledroidrs/0.0.1"),
        }
    }
}

/// Standard base64 (padded) of the UTF-8 bytes of a text.
pub uninterp spec fn base64_of(text: Seq<char>) -> Seq<char>;

/// Relies on base64's STANDARD engine (Engine::encode): the padded
/// standard-alphabet encoding of the text's bytes.
#[verifier::external_body]
fn encode_base64(text: &str) -> (r: String)
    ensures
        r@ == base64_of(text@),
{
    base64::Engine::encode(&base64::engine::general_purpose::STANDARD, text)
}

/// The serialisation of the URL that a text parses to, if it parses.
pub uninterp spec fn url_text_of(text: Seq<char>) -> Option<Seq<char>>;

/// Relies on url::Url::parse, as reqwest re-exports it: `None` where the
/// text is no valid absolute URL, else the parsed URL's serialisation.
#[verifier::external_body]
fn parse_url(text: &str) -> (r: Option<String>)
    ensures
        match r {
            Some(u) => url_text_of(text@) == Some(u@),
            None => url_text_of(text@).is_none(),
        },
{
    reqwest::Url::parse(text).ok().map(String::from)
}

/// The result handle that an upload response body carries: its `apk_url`
/// string, parsed as a URL.
pub open spec fn upload_handle_of(body: Seq<char>) -> Option<Seq<char>> {
    match string_field(body, "apk_url"@) {
        Some(u) => url_text_of(u),
        None => None,
    }
}

/// Reads the result handle out of an upload response body. A body that is
/// not JSON, lacks an `apk_url` string or holds no valid URL there is a
/// `ParseError`.
pub fn parse_upload_response(body: &str) -> (r: Result<String, UploadError>)
    ensures
        match r {
            Ok(h) => upload_handle_of(body@) == Some(h@),
            Err(e) => upload_handle_of(body@).is_none() && e is ParseError,
        },
        json_node_of(body@).is_none() ==> r is Err,
{
    match read_string_field(body, "apk_url") {
        None => Err(UploadError::ParseError(String::from_str("response holds no apk_url string"))),
        Some(u) => match parse_url(u.as_str()) {
            Some(handle) => Ok(handle),
            None => Err(UploadError::ParseError(String::from_str("apk_url is not a valid URL"))),
        },
    }
}

/// The status a poll observed: the snapshot's status, or an error where the
/// poll produced no snapshot.
pub fn status_of_snapshot(snapshot: &Option<ProfileResult>) -> (r: ProfileStatusResult)
    ensures
        match snapshot {
            Some(res) => r == Ok::<ProfileStatus, String>(res.status),
            None => r is Err,
        },
{
    match snapshot {
        Some(res) => Ok(res.status),
        None => Err(String::from_str("Failed to get profile status:")),
    }
}

/// A client of the profiling service: the API key, the package to submit
/// and where to send it.
pub struct Profiler {
    pub key: String,
    pub apk_path: String,
    pub config: ClientConfig,
}

impl Profiler {
    /// A client of the public service.
    pub fn new(key: &str, apk_path: &str) -> (r: Profiler)
        ensures
            r.key@ == key@,
            r.apk_path@ == apk_path@,
            r.config.endpoint@ == standard_endpoint(),
            r.config.user_agent@ == standard_user_agent(),
    {
        Profiler {
            key: String::from_str(key),
            apk_path: String::from_str(apk_path),
            config: ClientConfig::standard(),
        }
    }

    /// A client with its own endpoint and client name.
    pub fn with_config(key: &str, apk_path: &str, config: ClientConfig) -> (r: Profiler)
        ensures
            r.key@ == key@,
            r.apk_path@ == apk_path@,
            r.config == config,
    {
        Profiler { key: String::from_str(key), apk_path: String::from_str(apk_path), config }
    }

    /// The Basic credentials: the key as user name, an empty password.
    pub fn authorization(&self) -> (r: String)
        ensures
            r@ == "Basic "@ + base64_of(self.key@ + ":"@),
    {
        let user = self.key.clone().concat(":");
        let encoded = encode_base64(user.as_str());
        String::from_str("Basic ").concat(encoded.as_str())
    }

    /// Where packages are posted.
    pub fn upload_url(&self) -> (r: String)
        ensures
            r@ == self.config.endpoint@ + upload_path(),
    {
        self.config.endpoint.clone().concat("/api/v2/apks")
    }

    /// The headers every request carries, as (name, value) pairs.
    pub fn request_headers(&self) -> (r: Vec<(String, String)>)
        ensures
            r@.len() == 3,
            r@[0].0@ == "Authorization"@,
            r@[0].1@ == "Basic "@ + base64_of(self.key@ + ":"@),
            r@[1].0@ == "Host"@,
            r@[1].1@ == service_host(),
            r@[2].0@ == "User-Agent"@,
            r@[2].1@ == self.config.user_agent@,
    {
        let mut headers: Vec<(String, String)> = Vec::new();
        headers.push((String::from_str("Authorization"), self.authorization()));
        headers.push((String::from_str("Host"), String::from_str("nimbledroid.com")));
        headers.push((String::from_str("User-Agent"), self.config.user_agent.clone()));
        headers
    }
}

} // verus!
