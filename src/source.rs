use vstd::prelude::*;

use crate::format::{ConsulFormat, ConsulStoredFormat, detected};

verus! {

#[verifier::external_type_specification]
#[verifier::external_body]
pub struct ExUrl(url::Url);

/// Relies on url::Url's derived Clone: the copy has the same fields.
pub assume_specification[ <url::Url as Clone>::clone ](u: &url::Url) -> (r: url::Url)
    ensures
        r == *u,
;

/// What `url::Url::parse` makes of a text: the URL, or `None` where the text
/// is not an absolute URL.
pub uninterp spec fn url_parse(s: Seq<char>) -> Option<url::Url>;

/// The serialization of a URL (`Url::as_str`).
pub uninterp spec fn url_text(u: url::Url) -> Seq<char>;

/// The path of a URL (`Url::path`).
pub uninterp spec fn url_path(u: url::Url) -> Seq<char>;

/// Relies on url::Url::parse: parses an absolute URL; the outcome depends on
/// the text alone. The error is the parser's message.
#[verifier::external_body]
pub(crate) fn parse_url(s: &str) -> (r: Result<url::Url, String>)
    ensures
        r matches Ok(u) ==> url_parse(s@) == Some(u),
        r is Err ==> url_parse(s@) is None,
{
    url::Url::parse(s).map_err(|e| e.to_string())
}

/// Relies on url::Url::as_str: the URL's serialization.
#[verifier::external_body]
pub(crate) fn serialization(u: &url::Url) -> (r: String)
    ensures
        r@ == url_text(*u),
{
    u.as_str().to_string()
}

/// Relies on url::Url::path: the URL's path.
#[verifier::external_body]
pub(crate) fn path_of(u: &url::Url) -> (r: &str)
    ensures
        r@ == url_path(*u),
{
    u.path()
}

/// Why a source could not be resolved.
#[derive(Debug, PartialEq, Eq)]
pub enum SourceError {
    /// The backend could not deliver the resource (not found, unreachable).
    Backend(String),
    /// No format was given and none could be inferred from the origin, named here.
    UndetectedFormat(String),
}

/// What a source resolves to: the origin, the raw text and its format.
#[derive(Clone, Debug)]
pub struct ConsulSourceResult<F> {
    pub uri: Option<String>,
    pub content: String,
    pub format: F,
}

impl<F> ConsulSourceResult<F> {
    pub fn uri(&self) -> (r: &Option<String>)
        ensures
            r == &self.uri,
    {
        &self.uri
    }

    pub fn content(&self) -> (r: &str)
        ensures
            r@ == self.content@,
    {
        self.content.as_str()
    }

    pub fn format(&self) -> (r: &F)
        ensures
            r == &self.format,
    {
        &self.format
    }
}

/// The format of a resolution agrees with the hint, where one was given.
pub open spec fn keeps_hint<F>(
    hint: Option<F>,
    resolved: Result<ConsulSourceResult<F>, SourceError>,
) -> bool {
    (hint is Some && resolved is Ok) ==> resolved->Ok_0.format == hint->Some_0
}

/// Where configuration text comes from. Each call of `resolve` is a fresh
/// fetch: nothing is cached between calls.
pub trait ConsulSource<F: ConsulStoredFormat>: Sized {
    /// What a resolution of this source with `hint` may give.
    spec fn resolves(&self, hint: Option<F>, r: Result<ConsulSourceResult<F>, SourceError>) -> bool;

    fn resolve(&self, format_hint: Option<F>) -> (r: Result<ConsulSourceResult<F>, SourceError>)
        ensures
            keeps_hint(format_hint, r),
            self.resolves(format_hint, r),
    ;
}

/// A source addressed by an absolute URI.
///
/// This layer carries no network transport: a fetch through `resolve` always
/// reports a backend error. A program that reaches the backend itself hands
/// what it fetched to `resolve_fetched`, which applies the same rules.
#[derive(Clone, Debug)]
pub struct Remote {
    pub u: url::Url,
}

/// What resolving `u` gives, for a hint and the outcome of the fetch: the
/// format comes from the hint, else from the suffix of the URI's path, and
/// its absence is reported before any fetch failure.
pub open spec fn remote_resolution(
    u: url::Url,
    hint: Option<ConsulFormat>,
    fetched: Result<String, String>,
    r: Result<ConsulSourceResult<ConsulFormat>, SourceError>,
) -> bool {
    if hint is None && detected(url_path(u)) is None {
        r matches Err(SourceError::UndetectedFormat(n)) && n@ == url_text(u)
    } else {
        match fetched {
            Err(c) => r == Err::<ConsulSourceResult<ConsulFormat>, SourceError>(
                SourceError::Backend(c),
            ),
            Ok(text) => r matches Ok(res) && res.uri matches Some(o) && o@ == url_text(u)
                && res.content == text && res.format == (match hint {
                Some(f) => f,
                None => detected(url_path(u))->Some_0,
            }),
        }
    }
}

impl Remote {
    pub fn new(u: url::Url) -> (r: Self)
        ensures
            r.u == u,
    {
        Remote { u }
    }

    /// Resolves with the outcome of a fetch made elsewhere.
    pub fn resolve_fetched(
        &self,
        format_hint: Option<ConsulFormat>,
        fetched: Result<String, String>,
    ) -> (r: Result<ConsulSourceResult<ConsulFormat>, SourceError>)
        ensures
            remote_resolution(self.u, format_hint, fetched, r),
    {
        let format = match format_hint {
            Some(f) => f,
            None => match ConsulFormat::detect(path_of(&self.u)) {
                Some(f) => f,
                None => {
                    return Err(SourceError::UndetectedFormat(serialization(&self.u)));
                },
            },
        };
        match fetched {
            Err(c) => Err(SourceError::Backend(c)),
            Ok(content) => Ok(
                ConsulSourceResult { uri: Some(serialization(&self.u)), content, format },
            ),
        }
    }
}

impl ConsulSource<ConsulFormat> for Remote {
    /// Resolution with a fetch that failed.
    open spec fn resolves(
        &self,
        hint: Option<ConsulFormat>,
        r: Result<ConsulSourceResult<ConsulFormat>, SourceError>,
    ) -> bool {
        exists|m: String| #[trigger] remote_resolution(self.u, hint, Err(m), r)
    }

    fn resolve(&self, format_hint: Option<ConsulFormat>) -> (r: Result<
        ConsulSourceResult<ConsulFormat>,
        SourceError,
    >) {
        let missing = "no transport is available for remote sources".to_string();
        let r = self.resolve_fetched(format_hint, Err(missing));
        assert(remote_resolution(self.u, format_hint, Err(missing), r));
        r
    }
}

} // verus!
