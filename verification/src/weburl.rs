//! URLs as the rest of the library reads them: the parts that the `url`
//! crate extracts from an absolute URL.

use vstd::prelude::*;

verus! {

/// The parts of a parsed absolute URL.
#[derive(Debug, Clone)]
pub struct UrlParts {
    /// The URL in its normalised form (`Url::as_str`).
    pub serialized: String,
    /// The scheme, lower-cased, without `:`.
    pub scheme: String,
    /// The host as written in the URL (IPv6 hosts in brackets), if any.
    pub host: Option<String>,
    /// The explicit port, unless it is the scheme's default.
    pub port: Option<u16>,
    /// The user name, empty when there is none.
    pub username: String,
    pub password: Option<String>,
}

/// The value of a `UrlParts`.
pub struct UrlPartsView {
    pub serialized: Seq<char>,
    pub scheme: Seq<char>,
    pub host: Option<Seq<char>>,
    pub port: Option<u16>,
    pub username: Seq<char>,
    pub password: Option<Seq<char>>,
}

impl View for UrlParts {
    type V = UrlPartsView;

    open spec fn view(&self) -> UrlPartsView {
        UrlPartsView {
            serialized: self.serialized@,
            scheme: self.scheme@,
            host: match self.host {
                Some(h) => Some(h@),
                None => None,
            },
            port: self.port,
            username: self.username@,
            password: match self.password {
                Some(p) => Some(p@),
                None => None,
            },
        }
    }
}

/// `url::Url::parse` followed by `as_str`, `scheme`, `host_str`, `port`,
/// `username` and `password`: the parts of `input` read as an absolute URL,
/// or `None` when it is not one.
pub uninterp spec fn url_parse(input: Seq<char>) -> Option<UrlPartsView>;

/// `url::Url::parse` and the accessors that read the parsed URL's parts.
/// The result is the named function of the input.
#[verifier::external_body]
fn parse_with_url_crate(input: &str) -> (r: Option<UrlParts>)
    ensures
        match r {
            Some(u) => url_parse(input@) == Some(u@),
            None => url_parse(input@).is_none(),
        },
{
    match url::Url::parse(input) {
        Ok(u) => Some(UrlParts {
            serialized: u.as_str().to_string(),
            scheme: u.scheme().to_string(),
            host: u.host_str().map(|h| h.to_string()),
            port: u.port(),
            username: u.username().to_string(),
            password: u.password().map(|p| p.to_string()),
        }),
        Err(_) => None,
    }
}

impl UrlParts {
    /// Parses an absolute URL.
    pub fn parse(input: &str) -> (r: Option<UrlParts>)
        ensures
            match r {
                Some(u) => url_parse(input@) == Some(u@),
                None => url_parse(input@).is_none(),
            },
    {
        parse_with_url_crate(input)
    }

    /// A copy with the same parts.
    pub fn duplicate(&self) -> (r: UrlParts)
        ensures
            r == *self,
    {
        UrlParts {
            serialized: self.serialized.clone(),
            scheme: self.scheme.clone(),
            host: match &self.host {
                Some(h) => Some(h.clone()),
                None => None,
            },
            port: self.port,
            username: self.username.clone(),
            password: match &self.password {
                Some(p) => Some(p.clone()),
                None => None,
            },
        }
    }

    /// The normalised text of the URL.
    pub fn as_str(&self) -> (r: &str)
        ensures
            r@ == self.serialized@,
    {
        self.serialized.as_str()
    }
}

} // verus!
