use vstd::prelude::*;
use vstd::string::StrSliceExecFns;

verus! {

#[verifier::external_type_specification]
#[verifier::external_body]
pub struct ExJsonValue(serde_json::Value);

#[verifier::external_type_specification]
#[verifier::external_body]
#[verifier::reject_recursive_types(K)]
#[verifier::reject_recursive_types(V)]
pub struct ExJsonMap<K, V>(serde_json::Map<K, V>);

/// A parsed document: a mapping from unique string keys to value trees.
pub type Table = serde_json::Map<String, serde_json::Value>;

/// The entries of a table, keyed by the characters of each key.
pub uninterp spec fn table_entries(t: serde_json::Map<String, serde_json::Value>) -> Map<
    Seq<char>,
    serde_json::Value,
>;

/// The entries of an empty table.
pub open spec fn no_entries() -> Map<Seq<char>, serde_json::Value> {
    Map::empty()
}

/// Relies on serde_json::Map::new: the new map has no entries.
#[verifier::external_body]
pub(crate) fn empty_table() -> (r: Table)
    ensures
        table_entries(r) == no_entries(),
{
    serde_json::Map::new()
}

/// The table that the JSON grammar reads from a text, or the message with
/// which the reader refuses it: it is not JSON whose top level is an object, or it
/// nests past the reader's depth limit.
pub uninterp spec fn json_read(text: Seq<char>) -> Result<
    Map<Seq<char>, serde_json::Value>,
    Seq<char>,
>;

/// The table that the YAML grammar reads from a text, or the message with
/// which the reader refuses it: it is not YAML whose top level is a mapping with
/// string keys, or it nests or expands aliases past the reader's limits.
pub uninterp spec fn yaml_read(text: Seq<char>) -> Result<
    Map<Seq<char>, serde_json::Value>,
    Seq<char>,
>;

/// The table that the TOML grammar reads from a text, or the message with
/// which the reader refuses it: it is not a TOML document, or it nests past the
/// reader's depth limit.
pub uninterp spec fn toml_read(text: Seq<char>) -> Result<
    Map<Seq<char>, serde_json::Value>,
    Seq<char>,
>;

/// The table that the RON grammar reads from a text, or the message with
/// which the reader refuses it: it is not a RON map with string keys, or it nests
/// past the reader's depth limit.
pub uninterp spec fn ron_read(text: Seq<char>) -> Result<
    Map<Seq<char>, serde_json::Value>,
    Seq<char>,
>;

/// The table that the JSON5 grammar reads from a text whose top level is an
/// object, where it reads one.
pub uninterp spec fn json5_table(text: Seq<char>) -> Option<Map<Seq<char>, serde_json::Value>>;

/// Relies on serde_json::from_str: reads JSON text into a table; the outcome
/// depends on the text alone, its message included.
#[verifier::external_body]
pub(crate) fn read_json(text: &str) -> (r: Result<Table, String>)
    ensures
        r matches Ok(t) ==> json_read(text@) is Ok && json_read(text@)->Ok_0 == table_entries(t),
        r matches Err(e) ==> json_read(text@) is Err && json_read(text@)->Err_0 == e@,
{
    serde_json::from_str::<Table>(text).map_err(|e| e.to_string())
}

/// Relies on serde_yaml::from_str: reads YAML text into a table; the outcome
/// depends on the text alone, its message included.
#[verifier::external_body]
pub(crate) fn read_yaml(text: &str) -> (r: Result<Table, String>)
    ensures
        r matches Ok(t) ==> yaml_read(text@) is Ok && yaml_read(text@)->Ok_0 == table_entries(t),
        r matches Err(e) ==> yaml_read(text@) is Err && yaml_read(text@)->Err_0 == e@,
{
    serde_yaml::from_str::<Table>(text).map_err(|e| e.to_string())
}

/// Relies on toml::from_str: reads TOML text into a table; the outcome
/// depends on the text alone, its message included.
#[verifier::external_body]
pub(crate) fn read_toml(text: &str) -> (r: Result<Table, String>)
    ensures
        r matches Ok(t) ==> toml_read(text@) is Ok && toml_read(text@)->Ok_0 == table_entries(t),
        r matches Err(e) ==> toml_read(text@) is Err && toml_read(text@)->Err_0 == e@,
{
    toml::from_str::<Table>(text).map_err(|e| e.to_string())
}

/// Relies on ron::from_str: reads RON text into a table; the outcome depends
/// on the text alone, its message included.
#[verifier::external_body]
pub(crate) fn read_ron(text: &str) -> (r: Result<Table, String>)
    ensures
        r matches Ok(t) ==> ron_read(text@) is Ok && ron_read(text@)->Ok_0 == table_entries(t),
        r matches Err(e) ==> ron_read(text@) is Err && ron_read(text@)->Err_0 == e@,
{
    ron::from_str::<Table>(text).map_err(|e| e.to_string())
}

/// The deepest nesting of arrays and objects that a JSON5 text handed to the
/// grammar may have.
pub const JSON5_MAX_DEPTH: usize = 128;

/// Where a scan of JSON5 text stands: in code, inside a string opened by
/// the given quote (just after a backslash, or not), or inside a comment.
#[derive(Clone, Copy)]
pub enum Json5Lex {
    Code,
    Quoted(char),
    Escaped(char),
    LineComment,
    BlockComment,
}

/// A JSON5 line terminator.
pub open spec fn is_line_terminator(c: char) -> bool {
    c == '\n' || c == '\r' || c == '\u{2028}' || c == '\u{2029}'
}

/// One step of the scan at position `i` (which lies in `text`): how many
/// characters it consumes, and the state and nesting depth after them.
/// Brackets count only in code, not in strings or comments.
pub open spec fn json5_step(text: Seq<char>, i: int, lex: Json5Lex, depth: nat) -> (int, Json5Lex, nat) {
    let c = text[i];
    let next_is = |d: char| i + 1 < text.len() && text[i + 1] == d;
    match lex {
        Json5Lex::Code => if c == '"' || c == '\'' {
            (1, Json5Lex::Quoted(c), depth)
        } else if c == '/' && next_is('/') {
            (2, Json5Lex::LineComment, depth)
        } else if c == '/' && next_is('*') {
            (2, Json5Lex::BlockComment, depth)
        } else if c == '[' || c == '{' {
            (1, Json5Lex::Code, depth + 1)
        } else if c == ']' || c == '}' {
            (1, Json5Lex::Code, if depth > 0 { (depth - 1) as nat } else { 0 })
        } else {
            (1, Json5Lex::Code, depth)
        },
        Json5Lex::Quoted(q) => if c == '\\' {
            (1, Json5Lex::Escaped(q), depth)
        } else if c == q {
            (1, Json5Lex::Code, depth)
        } else {
            (1, Json5Lex::Quoted(q), depth)
        },
        Json5Lex::Escaped(q) => (1, Json5Lex::Quoted(q), depth),
        Json5Lex::LineComment => if is_line_terminator(c) {
            (1, Json5Lex::Code, depth)
        } else {
            (1, Json5Lex::LineComment, depth)
        },
        Json5Lex::BlockComment => if c == '*' && next_is('/') {
            (2, Json5Lex::Code, depth)
        } else {
            (1, Json5Lex::BlockComment, depth)
        },
    }
}

/// The deepest nesting that the scan reaches from position `i` on, starting
/// in state `lex` at depth `depth`.
pub open spec fn json5_depth_from(text: Seq<char>, i: int, lex: Json5Lex, depth: nat) -> nat
    decreases text.len() - i,
{
    if i < 0 || i >= text.len() {
        depth
    } else {
        let (k, lex2, depth2) = json5_step(text, i, lex, depth);
        if k <= 0 {
            depth
        } else {
            let rest = json5_depth_from(text, i + k, lex2, depth2);
            if rest > depth {
                rest
            } else {
                depth
            }
        }
    }
}

/// The nesting depth of arrays and objects in a JSON5 text: the most
/// brackets open at once outside strings and comments. The JSON5 grammar and
/// its deserializer recurse once per level of this nesting.
pub open spec fn json5_depth(text: Seq<char>) -> nat {
    json5_depth_from(text, 0, Json5Lex::Code, 0)
}

/// The nesting depth of arrays and objects in a JSON5 text.
pub fn json5_nesting_depth(text: &str) -> (r: usize)
    ensures
        r == json5_depth(text@),
{
    let n = text.unicode_len();
    let mut i: usize = 0;
    let mut lex = Json5Lex::Code;
    let mut depth: usize = 0;
    let mut deepest: usize = 0;
    while i < n
        invariant
            n == text@.len(),
            i <= n,
            depth <= i,
            depth <= deepest,
            deepest <= n,
            json5_depth(text@) == (if json5_depth_from(text@, i as int, lex, depth as nat)
                > deepest {
                json5_depth_from(text@, i as int, lex, depth as nat)
            } else {
                deepest as nat
            }),
        decreases n - i,
    {
        let c = text.get_char(i);
        let next: char = if i + 1 < n {
            text.get_char(i + 1)
        } else {
            ' '
        };
        let ghost step = json5_step(text@, i as int, lex, depth as nat);
        let k: usize;
        let lex2: Json5Lex;
        let depth2: usize;
        match lex {
            Json5Lex::Code => {
                if c == '"' || c == '\'' {
                    k = 1; lex2 = Json5Lex::Quoted(c); depth2 = depth;
                } else if c == '/' && i + 1 < n && next == '/' {
                    k = 2; lex2 = Json5Lex::LineComment; depth2 = depth;
                } else if c == '/' && i + 1 < n && next == '*' {
                    k = 2; lex2 = Json5Lex::BlockComment; depth2 = depth;
                } else if c == '[' || c == '{' {
                    k = 1; lex2 = Json5Lex::Code; depth2 = depth + 1;
                } else if c == ']' || c == '}' {
                    k = 1; lex2 = Json5Lex::Code; depth2 = if depth > 0 { depth - 1 } else { 0 };
                } else {
                    k = 1; lex2 = Json5Lex::Code; depth2 = depth;
                }
            },
            Json5Lex::Quoted(q) => {
                if c == '\\' {
                    k = 1; lex2 = Json5Lex::Escaped(q); depth2 = depth;
                } else if c == q {
                    k = 1; lex2 = Json5Lex::Code; depth2 = depth;
                } else {
                    k = 1; lex2 = Json5Lex::Quoted(q); depth2 = depth;
                }
            },
            Json5Lex::Escaped(q) => {
                k = 1; lex2 = Json5Lex::Quoted(q); depth2 = depth;
            },
            Json5Lex::LineComment => {
                if c == '\n' || c == '\r' || c == '\u{2028}' || c == '\u{2029}' {
                    k = 1; lex2 = Json5Lex::Code; depth2 = depth;
                } else {
                    k = 1; lex2 = Json5Lex::LineComment; depth2 = depth;
                }
            },
            Json5Lex::BlockComment => {
                if c == '*' && i + 1 < n && next == '/' {
                    k = 2; lex2 = Json5Lex::Code; depth2 = depth;
                } else {
                    k = 1; lex2 = Json5Lex::BlockComment; depth2 = depth;
                }
            },
        }
        assert(step == (k as int, lex2, depth2 as nat));
        i = i + k;
        lex = lex2;
        depth = depth2;
        if depth > deepest {
            deepest = depth;
        }
    }
    deepest
}

/// Whether the nesting depth of a JSON5 text is at most `JSON5_MAX_DEPTH`.
pub fn within_json5_nesting(text: &str) -> (r: bool)
    ensures
        r == (json5_depth(text@) <= JSON5_MAX_DEPTH),
{
    json5_nesting_depth(text) <= JSON5_MAX_DEPTH
}

/// Relies on json5::from_str: reads JSON5 text into a table. What it reads
/// depends on the text alone; a failure does not show that the text is
/// rejected, since the grammar honours a process-wide call limit of its
/// parser library. The grammar and its deserializer recurse once per array or
/// object with no depth limit of their own, so deeply nested text would
/// exhaust the stack: the bound on the nesting depth keeps it shallow.
#[verifier::external_body]
pub(crate) fn read_json5(text: &str) -> (r: Result<Table, String>)
    requires
        json5_depth(text@) <= JSON5_MAX_DEPTH,
    ensures
        r matches Ok(t) ==> json5_table(text@) == Some(table_entries(t)),
{
    json5::from_str::<Table>(text).map_err(|e| e.to_string())
}

} // verus!
