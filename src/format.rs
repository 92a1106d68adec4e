use vstd::prelude::*;
use vstd::string::StrSliceExecFns;

use crate::grammar::{
    json5_depth, json5_table, json_read, read_json, read_json5, read_ron, read_toml, read_yaml,
    ron_read, table_entries, toml_read, within_json5_nesting, yaml_read, Table,
    JSON5_MAX_DEPTH,
};

verus! {

/// The serialization grammars built into this library.
///
/// Every variant is registered in `registry` with a non-empty list of
/// file-name suffixes; no two variants share a suffix. Each grammar reads
/// straight into the table type through serde; INI has no such reader among
/// the dependencies and is not built in.
#[derive(Debug, Clone, Copy, PartialEq, Eq, Hash)]
pub enum ConsulFormat {
    /// TOML (parsed with the toml crate)
    Toml,
    /// JSON (parsed with serde_json)
    Json,
    /// YAML (parsed with serde_yaml, which deserializes into the table type)
    Yaml,
    /// RON (parsed with the ron crate)
    Ron,
    /// JSON5 (parsed with the json5 crate)
    Json5,
}

/// The formats of the second backend family share one registry with the first.
pub type NacosFormat = ConsulFormat;

/// The registered formats, in the order in which auto-detection tries them.
pub open spec fn registry() -> Seq<ConsulFormat> {
    seq![ConsulFormat::Toml, ConsulFormat::Json, ConsulFormat::Yaml, ConsulFormat::Ron, ConsulFormat::Json5]
}

/// The suffixes (without the dot) that name each format.
pub open spec fn suffixes(f: ConsulFormat) -> Seq<Seq<char>> {
    match f {
        ConsulFormat::Toml => seq![seq!['t', 'o', 'm', 'l']],
        ConsulFormat::Json => seq![seq!['j', 's', 'o', 'n']],
        ConsulFormat::Yaml => seq![seq!['y', 'a', 'm', 'l'], seq!['y', 'm', 'l']],
        ConsulFormat::Ron => seq![seq!['r', 'o', 'n']],
        ConsulFormat::Json5 => seq![seq!['j', 's', 'o', 'n', '5']],
    }
}

/// Suffix matching ignores ASCII case on the name's side: `c` in the name
/// matches the registered (lower-case) character `e`.
pub open spec fn char_matches(c: char, e: char) -> bool {
    c == e || ('A' <= c && c <= 'Z' && c as u32 + 32 == e as u32)
}

/// `name` ends with a dot followed by `ext`, up to ASCII case.
pub open spec fn has_suffix(name: Seq<char>, ext: Seq<char>) -> bool {
    &&& name.len() > ext.len()
    &&& name[name.len() - ext.len() - 1] == '.'
    &&& forall|k: int|
        0 <= k < ext.len() ==> #[trigger] char_matches(name[name.len() - ext.len() + k], ext[k])
}

/// Some suffix of `f` ends `name`.
pub open spec fn named_by(name: Seq<char>, f: ConsulFormat) -> bool {
    exists|i: int| 0 <= i < suffixes(f).len() && has_suffix(name, #[trigger] suffixes(f)[i])
}

/// The first format of `fs` that names `name`.
pub open spec fn first_named(name: Seq<char>, fs: Seq<ConsulFormat>) -> Option<ConsulFormat>
    decreases fs.len(),
{
    if fs.len() == 0 {
        None
    } else if named_by(name, fs[0]) {
        Some(fs[0])
    } else {
        first_named(name, fs.drop_first())
    }
}

/// The format that auto-detection picks for `name`: the first registered
/// format with a matching suffix.
pub open spec fn detected(name: Seq<char>) -> Option<ConsulFormat> {
    first_named(name, registry())
}

impl ConsulFormat {
    /// All registered formats, in detection order.
    pub fn all() -> (r: Vec<ConsulFormat>)
        ensures
            r@ == registry(),
    {
        let r = vec![
            ConsulFormat::Toml,
            ConsulFormat::Json,
            ConsulFormat::Yaml,
            ConsulFormat::Ron,
            ConsulFormat::Json5,
        ];
        assert(r@ =~= registry());
        r
    }

    /// The file-name suffixes (without the dot) associated with this format.
    pub fn extensions(&self) -> (r: Vec<&'static str>)
        ensures
            r@.len() == suffixes(*self).len(),
            forall|i: int| 0 <= i < r@.len() ==> (#[trigger] r@[i])@ == suffixes(*self)[i],
    {
        match self {
            ConsulFormat::Toml => {
                proof {
                    reveal_strlit("toml");
                }
                vec!["toml"]
            },
            ConsulFormat::Json => {
                proof {
                    reveal_strlit("json");
                }
                vec!["json"]
            },
            ConsulFormat::Yaml => {
                proof {
                    reveal_strlit("yaml");
                    reveal_strlit("yml");
                }
                vec!["yaml", "yml"]
            },
            ConsulFormat::Ron => {
                proof {
                    reveal_strlit("ron");
                }
                vec!["ron"]
            },
            ConsulFormat::Json5 => {
                proof {
                    reveal_strlit("json5");
                }
                vec!["json5"]
            },
        }
    }
}

/// Whether `name` ends with a dot followed by `ext`, ASCII case ignored on
/// the side of `name`.
pub fn ends_with_suffix(name: &str, ext: &str) -> (r: bool)
    ensures
        r == has_suffix(name@, ext@),
{
    let n = name.unicode_len();
    let m = ext.unicode_len();
    if n <= m {
        return false;
    }
    if name.get_char(n - m - 1) != '.' {
        return false;
    }
    let mut k: usize = 0;
    while k < m
        invariant
            n == name@.len(),
            m == ext@.len(),
            n > m,
            k <= m,
            forall|j: int| 0 <= j < k ==> #[trigger] char_matches(name@[n - m + j], ext@[j]),
        decreases m - k,
    {
        let c = name.get_char(n - m + k);
        let e = ext.get_char(k);
        if !(c == e || ('A' <= c && c <= 'Z' && (c as u32) + 32 == e as u32)) {
            assert(!char_matches(name@[n - m + k as int], ext@[k as int]));
            return false;
        }
        k += 1;
    }
    true
}

impl ConsulFormat {
    /// Whether one of this format's suffixes ends `name`.
    pub fn names(&self, name: &str) -> (r: bool)
        ensures
            r == named_by(name@, *self),
    {
        let exts = self.extensions();
        let mut i: usize = 0;
        while i < exts.len()
            invariant
                exts@.len() == suffixes(*self).len(),
                forall|j: int| 0 <= j < exts@.len() ==> (#[trigger] exts@[j])@ == suffixes(*self)[j],
                i <= exts@.len(),
                forall|j: int| 0 <= j < i ==> !has_suffix(name@, #[trigger] suffixes(*self)[j]),
            decreases exts@.len() - i,
        {
            if ends_with_suffix(name, exts[i]) {
                return true;
            }
            i += 1;
        }
        false
    }

    /// Auto-detection: the first registered format one of whose suffixes ends
    /// `name`, or `None` where no suffix matches.
    pub fn detect(name: &str) -> (r: Option<ConsulFormat>)
        ensures
            r == detected(name@),
    {
        let all = ConsulFormat::all();
        let mut i: usize = 0;
        assert(all@.subrange(0, all@.len() as int) =~= all@);
        while i < all.len()
            invariant
                all@ == registry(),
                i <= all@.len(),
                detected(name@) == first_named(name@, all@.subrange(i as int, all@.len() as int)),
            decreases all@.len() - i,
        {
            let ghost rest = all@.subrange(i as int, all@.len() as int);
            assert(rest.drop_first() =~= all@.subrange(i + 1, all@.len() as int));
            if all[i].names(name) {
                return Some(all[i]);
            }
            i += 1;
        }
        None
    }
}

/// No dot and no upper-case ASCII letter in `e`.
pub open spec fn plain_suffix(e: Seq<char>) -> bool {
    forall|k: int| 0 <= k < e.len() ==> #[trigger] e[k] != '.' && !('A' <= e[k] && e[k] <= 'Z')
}

proof fn lemma_registered_suffixes_plain(f: ConsulFormat)
    ensures
        suffixes(f).len() > 0,
        forall|i: int| 0 <= i < suffixes(f).len() ==> plain_suffix(#[trigger] suffixes(f)[i]),
{
}

proof fn lemma_suffixes_disjoint(f: ConsulFormat, g: ConsulFormat, i: int, j: int)
    requires
        f != g,
        0 <= i < suffixes(f).len(),
        0 <= j < suffixes(g).len(),
    ensures
        suffixes(f)[i] != suffixes(g)[j],
{
    let a = suffixes(f)[i];
    let b = suffixes(g)[j];
    if a.len() == b.len() {
        assert(a[0] != b[0] || a[4] != b[4]);
    }
}

proof fn lemma_own_suffix(stem: Seq<char>, e: Seq<char>)
    ensures
        has_suffix(stem + seq!['.'] + e, e),
{
    let name = stem + seq!['.'] + e;
    assert forall|k: int| 0 <= k < e.len() implies #[trigger] char_matches(
        name[name.len() - e.len() + k],
        e[k],
    ) by {
        assert(name[name.len() - e.len() + k] == e[k]);
    }
}

proof fn lemma_other_suffix(stem: Seq<char>, e: Seq<char>, e2: Seq<char>)
    requires
        plain_suffix(e),
        plain_suffix(e2),
        e != e2,
    ensures
        !has_suffix(stem + seq!['.'] + e, e2),
{
    let name = stem + seq!['.'] + e;
    let n = name.len();
    if has_suffix(name, e2) {
        if e2.len() < e.len() {
            assert(name[n - e2.len() - 1] == e[e.len() - e2.len() - 1]);
        } else if e2.len() > e.len() {
            let k = e2.len() - e.len() - 1;
            assert(char_matches(name[n - e2.len() + k], e2[k]));
            assert(name[n - e2.len() + k] == '.');
        } else {
            assert forall|k: int| 0 <= k < e.len() implies e[k] == e2[k] by {
                assert(char_matches(name[n - e2.len() + k], e2[k]));
                assert(name[n - e2.len() + k] == e[k]);
            }
            assert(e =~= e2);
        }
    }
}

proof fn lemma_first_named_unique(name: Seq<char>, fs: Seq<ConsulFormat>, f: ConsulFormat)
    requires
        fs.contains(f),
        forall|g: ConsulFormat| named_by(name, g) <==> g == f,
    ensures
        first_named(name, fs) == Some(f),
    decreases fs.len(),
{
    if fs[0] != f {
        assert(fs.drop_first().contains(f)) by {
            let k = choose|k: int| 0 <= k < fs.len() && fs[k] == f;
            assert(fs.drop_first()[k - 1] == f);
        }
        lemma_first_named_unique(name, fs.drop_first(), f);
    }
}

/// Every registered format has a non-empty list of suffixes, and each of them
/// maps back to that format alone: a name made of any stem, a dot and the
/// suffix is named by that format and by no other, and auto-detection picks it.
pub proof fn lemma_suffix_maps_back(f: ConsulFormat, i: int, stem: Seq<char>)
    requires
        0 <= i < suffixes(f).len(),
    ensures
        suffixes(f).len() > 0,
        forall|g: ConsulFormat| named_by(stem + seq!['.'] + suffixes(f)[i], g) <==> g == f,
        detected(stem + seq!['.'] + suffixes(f)[i]) == Some(f),
{
    let e = suffixes(f)[i];
    let name = stem + seq!['.'] + e;
    lemma_registered_suffixes_plain(f);
    lemma_own_suffix(stem, e);
    assert forall|g: ConsulFormat| named_by(name, g) <==> g == f by {
        if g != f {
            lemma_registered_suffixes_plain(g);
            assert forall|j: int| 0 <= j < suffixes(g).len() implies !has_suffix(
                name,
                #[trigger] suffixes(g)[j],
            ) by {
                lemma_suffixes_disjoint(f, g, i, j);
                lemma_other_suffix(stem, e, suffixes(g)[j]);
            }
        }
    }
    assert(registry().contains(f)) by {
        let k: int = match f {
            ConsulFormat::Toml => 0,
            ConsulFormat::Json => 1,
            ConsulFormat::Yaml => 2,
            ConsulFormat::Ron => 3,
            ConsulFormat::Json5 => 4,
        };
        assert(registry()[k] == f);
    }
    lemma_first_named_unique(name, registry(), f);
}

/// A serialization grammar: reads a text into a table.
pub trait Format {
    /// The table read from `text`, or `None` where the text is not accepted.
    spec fn parsed(&self, text: Seq<char>) -> Option<Map<Seq<char>, serde_json::Value>>;

    /// Whether a failure to read `text` shows that the grammar rejects it
    /// (rather than a limit of the reader).
    spec fn fails_only_on_rejection(&self, text: Seq<char>) -> bool;

    /// The message with which the grammar rejects `text`.
    spec fn rejection(&self, text: Seq<char>) -> Seq<char>;

    /// Reads `text`. The origin is for messages only and never changes the
    /// outcome; the error is the grammar's message.
    fn parse(&self, uri: Option<&String>, text: &str) -> (r: Result<Table, String>)
        ensures
            r matches Ok(t) ==> self.parsed(text@) == Some(table_entries(t)),
            r is Err && self.fails_only_on_rejection(text@) ==> self.parsed(text@) is None
                && r->Err_0@ == self.rejection(text@),
    ;
}

/// A format that is associated with file-name suffixes.
pub trait ConsulStoredFormat: Format {
    /// The suffixes (without the dot) that name this format.
    spec fn suffix_list(&self) -> Seq<Seq<char>>;

    /// The suffixes (without the dot), for instance `[yaml, yml]`.
    fn file_extensions(&self) -> (r: Vec<&'static str>)
        ensures
            r@.len() > 0,
            r@.len() == self.suffix_list().len(),
            forall|i: int| 0 <= i < r@.len() ==> (#[trigger] r@[i])@ == self.suffix_list()[i],
    ;
}

/// The stored-format trait of the second backend family is the same trait.
pub use ConsulStoredFormat as NacosStoredFormat;

/// What the grammar of `f` reads from `text`: a table, or a rejection
/// message. JSON5 is read only where it yields a table.
pub open spec fn grammar_read(f: ConsulFormat, text: Seq<char>) -> Result<
    Map<Seq<char>, serde_json::Value>,
    Seq<char>,
> {
    match f {
        ConsulFormat::Toml => toml_read(text),
        ConsulFormat::Json => json_read(text),
        ConsulFormat::Yaml => yaml_read(text),
        ConsulFormat::Ron => ron_read(text),
        ConsulFormat::Json5 => match json5_table(text) {
            Some(m) => Ok(m),
            None => Err(too_deep_message()),
        },
    }
}

/// The table that the grammar of `f` reads from `text`, if any.
pub open spec fn grammar_table(f: ConsulFormat, text: Seq<char>) -> Option<
    Map<Seq<char>, serde_json::Value>,
> {
    match grammar_read(f, text) {
        Ok(m) => Some(m),
        Err(_) => None,
    }
}

/// The message with which JSON5 text that nests too deeply is refused.
pub open spec fn too_deep_message() -> Seq<char> {
    "JSON5 text nests too deeply to be read safely"@
}

fn json5_too_deep() -> (r: String)
    ensures
        r@ == too_deep_message(),
{
    "JSON5 text nests too deeply to be read safely".to_string()
}

impl ConsulFormat {
    /// Reads `text` with this format's grammar. `uri` names the origin in
    /// messages only.
    ///
    /// A failure of the JSON5 grammar may come from a limit of its reader
    /// rather than from the text, and JSON5 text with more than
    /// nests deeper than `JSON5_MAX_DEPTH` is refused before it is read, with
    /// the message `too_deep_message`.
    pub fn parse(&self, uri: Option<&String>, text: &str) -> (r: Result<Table, String>)
        ensures
            r matches Ok(t) ==> grammar_table(*self, text@) == Some(table_entries(t)),
            r is Err && *self != ConsulFormat::Json5 ==> grammar_read(*self, text@) is Err
                && grammar_read(*self, text@)->Err_0 == r->Err_0@,
            *self == ConsulFormat::Json5 && json5_depth(text@) > JSON5_MAX_DEPTH ==> r is Err
                && r->Err_0@ == too_deep_message(),
    {
        match self {
            ConsulFormat::Toml => read_toml(text),
            ConsulFormat::Json => read_json(text),
            ConsulFormat::Yaml => read_yaml(text),
            ConsulFormat::Ron => read_ron(text),
            ConsulFormat::Json5 => {
                if within_json5_nesting(text) {
                    read_json5(text)
                } else {
                    Err(json5_too_deep())
                }
            },
        }
    }
}

impl Format for ConsulFormat {
    open spec fn parsed(&self, text: Seq<char>) -> Option<Map<Seq<char>, serde_json::Value>> {
        grammar_table(*self, text)
    }

    open spec fn fails_only_on_rejection(&self, text: Seq<char>) -> bool {
        *self != ConsulFormat::Json5
    }

    open spec fn rejection(&self, text: Seq<char>) -> Seq<char> {
        match grammar_read(*self, text) {
            Ok(_) => Seq::empty(),
            Err(e) => e,
        }
    }

    fn parse(&self, uri: Option<&String>, text: &str) -> (r: Result<Table, String>) {
        ConsulFormat::parse(self, uri, text)
    }
}

impl ConsulStoredFormat for ConsulFormat {
    open spec fn suffix_list(&self) -> Seq<Seq<char>> {
        suffixes(*self)
    }

    fn file_extensions(&self) -> (r: Vec<&'static str>) {
        self.extensions()
    }
}

/// Parsing is deterministic: two reads of one text under one format that both
/// succeed read equal tables, and, but for JSON5 (whose reader has a
/// process-wide limit), two reads agree on whether the text is accepted and
/// on the message with which it is rejected.
pub proof fn lemma_parse_deterministic(
    f: ConsulFormat,
    text: Seq<char>,
    r1: Result<Table, String>,
    r2: Result<Table, String>,
)
    requires
        r1 matches Ok(t) ==> grammar_table(f, text) == Some(table_entries(t)),
        r1 is Err && f != ConsulFormat::Json5 ==> grammar_read(f, text) is Err
            && grammar_read(f, text)->Err_0 == r1->Err_0@,
        r2 matches Ok(t) ==> grammar_table(f, text) == Some(table_entries(t)),
        r2 is Err && f != ConsulFormat::Json5 ==> grammar_read(f, text) is Err
            && grammar_read(f, text)->Err_0 == r2->Err_0@,
    ensures
        r1 is Ok && r2 is Ok ==> table_entries(r1->Ok_0) == table_entries(r2->Ok_0),
        f != ConsulFormat::Json5 ==> (r1 is Ok <==> r2 is Ok),
        f != ConsulFormat::Json5 && r1 is Err ==> r1->Err_0@ == r2->Err_0@,
{
}

} // verus!
