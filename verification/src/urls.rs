//! URLs, parsed by the URL type of `reqwest`.

use vstd::prelude::*;

verus! {

/// What the installer reads of a parsed URL.
#[derive(Clone, Debug, PartialEq, Eq)]
pub struct UrlParts {
    /// The URL in its normalized form.
    pub text: String,
    pub scheme: String,
    pub host: Option<String>,
    pub username: String,
    pub password: Option<String>,
    pub query: Option<String>,
    pub fragment: Option<String>,
    /// The last segment of the path, still percent-encoded.
    pub last_segment: Option<String>,
}

/// What [`UrlParts`] hold.
pub struct UrlView {
    pub text: Seq<char>,
    pub scheme: Seq<char>,
    pub host: Option<Seq<char>>,
    pub username: Seq<char>,
    pub password: Option<Seq<char>>,
    pub query: Option<Seq<char>>,
    pub fragment: Option<Seq<char>>,
    pub last_segment: Option<Seq<char>>,
}

impl View for UrlParts {
    type V = UrlView;

    open spec fn view(&self) -> UrlView {
        UrlView {
            text: self.text@,
            scheme: self.scheme@,
            host: crate::text::optional_text(self.host),
            username: self.username@,
            password: crate::text::optional_text(self.password),
            query: crate::text::optional_text(self.query),
            fragment: crate::text::optional_text(self.fragment),
            last_segment: crate::text::optional_text(self.last_segment),
        }
    }
}

/// What the parts of a URL hold, where there is one.
pub open spec fn url_view(url: Option<UrlParts>) -> Option<UrlView> {
    match url {
        Some(parts) => Some(parts@),
        None => None,
    }
}

/// What `reqwest::Url::parse` makes of a text.
pub uninterp spec fn parsed_url(value: Seq<char>) -> Option<UrlView>;

/// What `reqwest::Url::join` makes of a reference within a base URL: the scheme and the text of
/// the URL it leads to.
pub uninterp spec fn joined_url(base: Seq<char>, reference: Seq<char>) -> Option<
    (Seq<char>, Seq<char>),
>;

/// `reqwest::Url::parse` decides by the text alone whether it is an absolute URL, and what its
/// parts are.
#[verifier::external_body]
pub(crate) fn parse_url(value: &str) -> (parts: Option<UrlParts>)
    ensures
        url_view(parts) == parsed_url(value@),
{
    let url = reqwest::Url::parse(value).ok()?;
    Some(UrlParts {
        text: url.as_str().to_owned(),
        scheme: url.scheme().to_owned(),
        host: url.host_str().map(str::to_owned),
        username: url.username().to_owned(),
        password: url.password().map(str::to_owned),
        query: url.query().map(str::to_owned),
        fragment: url.fragment().map(str::to_owned),
        last_segment: url.path_segments().and_then(|mut parts| parts.next_back()).map(str::to_owned),
    })
}

/// `reqwest::Url::join` resolves a reference against a base URL. Base and reference alone decide
/// whether there is a result, and which; a base that is no URL gives none.
#[verifier::external_body]
pub(crate) fn join_url(base: &str, reference: &str) -> (parts: Option<(String, String)>)
    ensures
        match parts {
            Some(url) => joined_url(base@, reference@) == Some((url.0@, url.1@)),
            None => joined_url(base@, reference@) is None,
        },
{
    let url = reqwest::Url::parse(base).ok()?.join(reference).ok()?;
    Some((url.scheme().to_owned(), url.as_str().to_owned()))
}

} // verus!
