//! Addresses of Gemini resources.

use vstd::prelude::*;
use crate::text::text_of;

verus! {

/// The address of a resource, in its parts.
#[derive(Clone, Debug, PartialEq, Eq)]
pub struct ResourceUrl {
    /// The scheme, where the address names one (`gemini`).
    pub scheme: Option<String>,
    /// The host to connect to.
    pub host: String,
    /// The port, where the address names one.
    pub port: Option<u16>,
    /// The path, with its leading slash.
    pub path: Option<String>,
    /// What follows the question mark, cut at every `#`.
    pub query: Option<Vec<String>>,
}

/// A `ResourceUrl` as a mathematical value.
pub struct UrlModel {
    pub scheme: Option<Seq<char>>,
    pub host: Seq<char>,
    pub port: Option<u16>,
    pub path: Option<Seq<char>>,
    pub query: Option<Seq<Seq<char>>>,
}

impl View for ResourceUrl {
    type V = UrlModel;

    open spec fn view(&self) -> UrlModel {
        UrlModel {
            scheme: text_of(self.scheme),
            host: self.host@,
            port: self.port,
            path: text_of(self.path),
            query: match self.query {
                Some(q) => Some(q.deep_view()),
                None => None,
            },
        }
    }
}

/// Why a text is not the address of a resource.
#[derive(Clone, Copy, Debug, PartialEq, Eq, Structural)]
pub enum AddressError {
    /// The text holds nothing but white space.
    EmptyUrl,
    /// What follows the colon after the host is not a port number.
    InvalidPort,
    /// The text names no host.
    MissingHost,
}

impl AddressError {
    /// The message shown to the user for this error.
    pub open spec fn message_text(self) -> Seq<char> {
        match self {
            AddressError::EmptyUrl => "URL Parse error: Empty URL"@,
            AddressError::InvalidPort => "URL parse error: Error parsing authority: Invalid port"@,
            AddressError::MissingHost => "URL parse error: Error parsing authority: Missing host"@,
        }
    }

    /// The message shown to the user for this error.
    pub fn message(&self) -> (out: String)
        ensures
            out@ == self.message_text(),
    {
        match self {
            AddressError::EmptyUrl => "URL Parse error: Empty URL".to_owned(),
            AddressError::InvalidPort => {
                "URL parse error: Error parsing authority: Invalid port".to_owned()
            },
            AddressError::MissingHost => {
                "URL parse error: Error parsing authority: Missing host".to_owned()
            },
        }
    }
}

/// What parsing `text` as an address gives: the address in its parts, or the
/// reason for which `text` is none. It stands for the result of
/// `gmi::url::Url::try_from`, which depends on `text` alone.
pub uninterp spec fn parsed_url(text: Seq<char>) -> Result<UrlModel, AddressError>;

/// A parse result as a mathematical value.
pub open spec fn parse_view(r: Result<ResourceUrl, AddressError>) -> Result<UrlModel, AddressError> {
    match r {
        Ok(url) => Ok(url@),
        Err(e) => Err(e),
    }
}

/// Parses `text` as the address of a resource: calls
/// `gmi::url::Url::try_from` and hands back what it returned, field by
/// field. Trusted: that the call returns for every text, and that what it
/// returns depends on the text alone, so that it is `parsed_url(text@)`.
/// Nothing is claimed here of which texts parse.
#[verifier::external_body]
pub(crate) fn parse_url(text: &str) -> (r: Result<ResourceUrl, AddressError>)
    ensures
        parse_view(r) == parsed_url(text@),
{
    match gmi::url::Url::try_from(text) {
        Ok(u) => Ok(ResourceUrl {
            scheme: u.scheme,
            host: u.authority.host,
            port: u.authority.port,
            path: u.path.map(|p| p.raw_path),
            query: u.query.map(|q| q.fragments),
        }),
        Err(gmi::url::UrlParseError::EmptyURL) => Err(AddressError::EmptyUrl),
        Err(gmi::url::UrlParseError::AuthorityParseError(e)) => match e {
            gmi::url::AuthorityParseError::InvalidPort => Err(AddressError::InvalidPort),
            gmi::url::AuthorityParseError::MissingHost => Err(AddressError::MissingHost),
        },
    }
}

/// The Gemini address that a request path stands for: the scheme, then the
/// path, whose leading slash completes the `//` after the colon.
pub open spec fn gemini_url_text(request_path: Seq<char>) -> Seq<char> {
    "gemini:/"@ + request_path
}

/// The Gemini address that a request path stands for.
pub fn gemini_url_for(request_path: &str) -> (out: String)
    ensures
        out@ == gemini_url_text(request_path@),
{
    let mut out = "gemini:/".to_owned();
    out.append(request_path);
    out
}

} // verus!
