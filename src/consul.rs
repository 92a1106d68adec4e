use vstd::prelude::*;

use crate::format::{detected, ConsulFormat, ConsulStoredFormat, Format};
use crate::grammar::{empty_table, no_entries, table_entries, Table};
use crate::source::{
    keeps_hint, parse_url, remote_resolution, url_parse, url_path, url_text, ConsulSource, ConsulSourceResult, Remote, SourceError,
};

verus! {

/// Why collecting a source failed.
#[derive(Debug, PartialEq, Eq)]
pub enum ConfigError {
    /// The resource was found but its text does not fit its format.
    FileParse { uri: Option<String>, cause: String },
    /// The backend could not deliver the resource; its cause, unchanged.
    Foreign(String),
    /// No format was given and none matches the origin, named here.
    UndetectedFormat(String),
    /// The locator is not an absolute URI; the parser's message.
    InvalidLocator(String),
}

/// A configuration source: a backend, an optional pinned format and the
/// policy on a backend that cannot be resolved.
#[derive(Clone, Debug)]
pub struct Consul<T, F> {
    source: T,
    /// Format of the resource; `None` asks for detection from its name.
    format: Option<F>,
    /// A required source fails where the backend fails; an optional one is
    /// then empty.
    required: bool,
}

impl<T, F> Consul<T, F> {
    /// The backend.
    pub closed spec fn spec_source(&self) -> T {
        self.source
    }

    /// The pinned format, if any.
    pub closed spec fn spec_format(&self) -> Option<F> {
        self.format
    }

    /// Whether a backend failure is an error.
    pub closed spec fn spec_required(&self) -> bool {
        self.required
    }

    pub fn source(&self) -> (r: &T)
        ensures
            *r == self.spec_source(),
    {
        &self.source
    }

    pub fn format_hint(&self) -> (r: &Option<F>)
        ensures
            *r == self.spec_format(),
    {
        &self.format
    }

    pub fn is_required(&self) -> (r: bool)
        ensures
            r == self.spec_required(),
    {
        self.required
    }
}

/// The facade of the second backend family is the same type.
pub type Nacos<T, F> = Consul<T, F>;

/// What `collect` returns once the source resolved to `resolved`.
pub open spec fn collected<F: Format>(
    required: bool,
    resolved: Result<ConsulSourceResult<F>, SourceError>,
    r: Result<Table, ConfigError>,
) -> bool {
    match resolved {
        Err(SourceError::Backend(c)) => if required {
            r == Err::<Table, ConfigError>(ConfigError::Foreign(c))
        } else {
            r is Ok && table_entries(r->Ok_0) == no_entries()
        },
        Err(SourceError::UndetectedFormat(n)) => r == Err::<Table, ConfigError>(
            ConfigError::UndetectedFormat(n),
        ),
        Ok(res) => exists|p: Result<Table, String>|
            #[trigger] parse_outcome(res.format, res.content@, p) && r == with_origin(res.uri, p),
    }
}

/// `p` is a result that `f.parse` may give on `text`.
pub open spec fn parse_outcome<F: Format>(f: F, text: Seq<char>, p: Result<Table, String>) -> bool {
    &&& p matches Ok(t) ==> f.parsed(text) == Some(table_entries(t))
    &&& p is Err && f.fails_only_on_rejection(text) ==> f.parsed(text) is None && p->Err_0@
        == f.rejection(text)
}

/// A parse result with the origin attached to its error.
pub open spec fn with_origin(uri: Option<String>, p: Result<Table, String>) -> Result<
    Table,
    ConfigError,
> {
    match p {
        Ok(t) => Ok(t),
        Err(cause) => Err(ConfigError::FileParse { uri, cause }),
    }
}

/// Attaches the origin `uri` to the error of a parse result: the table
/// passes unchanged, and the parser's error becomes the cause of a
/// `FileParse` error.
pub fn attach_origin(uri: Option<String>, p: Result<Table, String>) -> (r: Result<
    Table,
    ConfigError,
>)
    ensures
        r == with_origin(uri, p),
{
    match p {
        Ok(t) => Ok(t),
        Err(cause) => Err(ConfigError::FileParse { uri, cause }),
    }
}

/// What constructing a remote source from `name` gives.
pub open spec fn built_from<F>(
    name: Seq<char>,
    format: Option<F>,
    r: Result<Consul<Remote, F>, ConfigError>,
) -> bool {
    match url_parse(name) {
        Some(u) => r is Ok && r->Ok_0.spec_source().u == u && r->Ok_0.spec_format() == format && r->Ok_0.spec_required(),
        None => r is Err && r->Err_0 is InvalidLocator,
    }
}

impl<F: ConsulStoredFormat> Consul<Remote, F> {
    /// A required source at the URI `name`, read with `format`. A locator that
    /// is not an absolute URI is refused here.
    pub fn new(name: &str, format: F) -> (r: Result<Self, ConfigError>)
        ensures
            built_from(name@, Some(format), r),
    {
        match parse_url(name) {
            Ok(u) => Ok(Consul { source: Remote::new(u), format: Some(format), required: true }),
            Err(e) => Err(ConfigError::InvalidLocator(e)),
        }
    }
}

impl Consul<Remote, ConsulFormat> {
    /// A required source at the URI `name`, whose format is detected from the
    /// suffix of its path.
    pub fn with_name(name: &str) -> (r: Result<Self, ConfigError>)
        ensures
            built_from(name@, None, r),
    {
        match parse_url(name) {
            Ok(u) => Ok(Consul { source: Remote::new(u), format: None, required: true }),
            Err(e) => Err(ConfigError::InvalidLocator(e)),
        }
    }
}

impl<T, F: ConsulStoredFormat> Consul<T, F> {
    /// Pins the format.
    pub fn format(self, format: F) -> (r: Self)
        ensures
            r.spec_format() == Some(format),
            r.spec_required() == self.spec_required(),
            r.spec_source() == self.spec_source(),
    {
        Consul { source: self.source, format: Some(format), required: self.required }
    }

    /// Sets whether a backend failure is an error (`true`) or an empty table.
    pub fn required(self, required: bool) -> (r: Self)
        ensures
            r.spec_required() == required,
            r.spec_format() == self.spec_format(),
            r.spec_source() == self.spec_source(),
    {
        Consul { source: self.source, format: self.format, required }
    }

    /// Turns what the source resolved to into a table: a backend failure is
    /// an error where the source is required and an empty table where it is
    /// not; an undetected format is always an error; text that its format
    /// does not accept is always a `FileParse` error naming the origin.
    pub fn collect_resolved(
        &self,
        resolved: Result<ConsulSourceResult<F>, SourceError>,
    ) -> (r: Result<Table, ConfigError>)
        ensures
            collected(self.spec_required(), resolved, r),
    {
        match resolved {
            Err(SourceError::Backend(c)) => {
                if !self.required {
                    Ok(empty_table())
                } else {
                    Err(ConfigError::Foreign(c))
                }
            },
            Err(SourceError::UndetectedFormat(n)) => Err(ConfigError::UndetectedFormat(n)),
            Ok(res) => {
                let ConsulSourceResult { uri, content, format } = res;
                let p = format.parse(uri.as_ref(), content.as_str());
                assert(parse_outcome(format, content@, p));
                attach_origin(uri, p)
            },
        }
    }
}

impl<T: ConsulSource<F>, F: ConsulStoredFormat + Copy> Consul<T, F> {
    /// Resolves the source afresh and reads what it delivers.
    pub fn collect(&self) -> (r: Result<Table, ConfigError>)
        ensures
            exists|res: Result<ConsulSourceResult<F>, SourceError>|
                keeps_hint(self.spec_format(), res) && self.spec_source().resolves(self.spec_format(), res)
                    && #[trigger] collected(self.spec_required(), res, r),
            !self.spec_required() ==> !(r matches Err(ConfigError::Foreign(_))),
    {
        let resolved = self.source.resolve(self.format);
        let ghost res = resolved;
        let r = self.collect_resolved(resolved);
        assert(collected(self.required, res, r));
        r
    }
}

/// An optional source never reports a backend failure: such a failure gives
/// an empty table.
pub proof fn lemma_optional_absorbs_backend<F: Format>(
    resolved: Result<ConsulSourceResult<F>, SourceError>,
    r: Result<Table, ConfigError>,
)
    requires
        collected(false, resolved, r),
    ensures
        !(r matches Err(ConfigError::Foreign(_))),
        resolved matches Err(SourceError::Backend(_)) ==> r is Ok && table_entries(r->Ok_0)
            == no_entries(),
{
}

/// A required source reports a backend failure with its cause unchanged.
pub proof fn lemma_required_propagates_backend<F: Format>(
    cause: String,
    r: Result<Table, ConfigError>,
)
    requires
        collected(true, Err::<ConsulSourceResult<F>, SourceError>(SourceError::Backend(cause)), r),
    ensures
        r == Err::<Table, ConfigError>(ConfigError::Foreign(cause)),
{
}

/// A resource that was found but whose text its format does not accept is
/// a `FileParse` error naming its origin, whether the source is required or
/// not.
pub proof fn lemma_corrupt_content_fails<F: Format>(
    required: bool,
    res: ConsulSourceResult<F>,
    r: Result<Table, ConfigError>,
)
    requires
        collected(required, Ok(res), r),
        res.format.parsed(res.content@) is None,
    ensures
        r matches Err(ConfigError::FileParse { uri, cause }) && uri == res.uri,
{
}

/// A remote source without a pinned format whose path ends in no registered
/// suffix fails to collect with a detection error naming it, whether it is
/// required or not; it never yields an empty table.
pub proof fn lemma_unknown_suffix_fails(
    c: Consul<Remote, ConsulFormat>,
    res: Result<ConsulSourceResult<ConsulFormat>, SourceError>,
    r: Result<Table, ConfigError>,
)
    requires
        c.spec_format() is None,
        detected(url_path(c.spec_source().u)) is None,
        c.spec_source().resolves(c.spec_format(), res),
        collected(c.spec_required(), res, r),
    ensures
        r matches Err(ConfigError::UndetectedFormat(n)) && n@ == url_text(c.spec_source().u),
{
    let m = choose|m: String| #[trigger] remote_resolution(c.spec_source().u, c.spec_format(), Err(m), res);
}

/// An optional remote source whose format is pinned, or detected from the
/// suffix of its path, collects to an empty table and no error: its fetch
/// fails for want of a transport, and that failure is absorbed.
pub proof fn lemma_optional_remote_is_empty(
    c: Consul<Remote, ConsulFormat>,
    res: Result<ConsulSourceResult<ConsulFormat>, SourceError>,
    r: Result<Table, ConfigError>,
)
    requires
        !c.spec_required(),
        c.spec_format() is Some || detected(url_path(c.spec_source().u)) is Some,
        c.spec_source().resolves(c.spec_format(), res),
        collected(c.spec_required(), res, r),
    ensures
        r is Ok && table_entries(r->Ok_0) == no_entries(),
{
    let m = choose|m: String| #[trigger] remote_resolution(c.spec_source().u, c.spec_format(), Err(m), res);
}

} // verus!
