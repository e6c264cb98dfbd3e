//! Plain-value model of the cursor context inside a parsed document.
//!
//! The host locator pairs a cursor byte offset with the adjacent syntax
//! tokens; for each token it records the token's kind, raw text, source
//! range, ancestor chain, and — when the token is itself a value in the
//! document tree — the parsed string value with its key path.  Everything
//! the classifier decides is decided over this model.

use vstd::prelude::*;

use crate::strutil::{join_strings, spec_join, str_eq};
use crate::tree::Span;

verus! {

/// Kind of the syntax token under the cursor, as far as the engine cares.
#[derive(Clone, Copy, PartialEq, Eq, Structural, Debug)]
pub enum TokenClass {
    /// A quoted (basic) string token.
    BasicString,
    /// A single-quoted (literal) string token.
    LiteralString,
    /// A bare identifier token.
    Ident,
    /// Any other token.
    OtherToken,
}

/// Kind of a syntax node on the ancestor chain of the cursor token.
#[derive(Clone, Copy, PartialEq, Eq, Structural, Debug)]
pub enum NodeClass {
    /// A `key = value` entry.
    Entry,
    /// An inline `{ ... }` table.
    InlineTable,
    /// A value node.
    ValueNode,
    /// A key node.
    KeyNode,
    /// Any other node.
    OtherNode,
}

/// One ancestor node of the cursor token.
#[derive(Debug)]
pub struct AncestorInfo {
    pub kind: NodeClass,
    /// Whether the node has a key child.
    pub has_key: bool,
    /// The identifier segments of the node's key, in source order.
    pub key_idents: Vec<String>,
}

/// A cursor-adjacent token together with everything the engine reads about
/// its context.
pub struct TokenInfo {
    pub kind: TokenClass,
    /// Raw source text of the token, quotes included for strings.
    pub text: String,
    /// Byte range of the token in the source text.
    pub span: Span,
    /// Ancestor chain of the token, innermost first.
    pub ancestors: Vec<AncestorInfo>,
    /// Parsed (unescaped) string value of the token when the token is a
    /// value in the document tree, with the key path that leads to it.
    pub value: Option<(Vec<String>, String)>,
}

/// The cursor-adjacent tokens: the one ending at or containing the cursor
/// and the one starting at or containing it.
pub struct CursorQuery {
    pub before: Option<TokenInfo>,
    pub after: Option<TokenInfo>,
}

/// The index of the first ancestor at or after `from` with kind `c`.
pub open spec fn spec_find_class(chain: Seq<AncestorInfo>, c: NodeClass, from: int) -> Option<int>
    decreases chain.len() - from,
{
    if from < 0 || from >= chain.len() {
        None
    } else if chain[from].kind == c {
        Some(from)
    } else {
        spec_find_class(chain, c, from + 1)
    }
}

/// `id` occurs among the key identifier segments of `a`.
pub open spec fn spec_has_ident(a: AncestorInfo, id: Seq<char>) -> bool {
    exists|i: int| 0 <= i < a.key_idents@.len() && a.key_idents@[i]@ == id
}

/// The expected ancestry of a value nested in an `inputs = { ... }` inline
/// table: from the token, the innermost enclosing entry; from there, the
/// nearest enclosing inline table; from there, the nearest enclosing entry,
/// whose key must have an `inputs` identifier segment.
pub open spec fn spec_inside_inputs_inline_table(chain: Seq<AncestorInfo>) -> bool {
    match spec_find_class(chain, NodeClass::Entry, 0) {
        Some(i) => match spec_find_class(chain, NodeClass::InlineTable, i) {
            Some(j) => match spec_find_class(chain, NodeClass::Entry, j) {
                Some(k) => spec_has_ident(chain[k], "inputs"@),
                None => false,
            },
            None => false,
        },
        None => false,
    }
}

/// The dotted key of the entry enclosing the cursor token: the identifier
/// segments of the innermost entry ancestor's key, joined with `.`; nothing
/// when no enclosing entry with a key exists.
pub open spec fn spec_entry_key(chain: Seq<AncestorInfo>) -> Option<Seq<char>> {
    match spec_find_class(chain, NodeClass::Entry, 0) {
        Some(i) => if chain[i].has_key {
            Some(spec_join(chain[i].key_idents@.map_values(|s: String| s@), "."@))
        } else {
            None
        },
        None => None,
    }
}

/// The token is a string token.
pub open spec fn spec_is_string_token(k: TokenClass) -> bool {
    k == TokenClass::BasicString || k == TokenClass::LiteralString
}

/// `t` when it holds a string token, nothing otherwise.
pub open spec fn spec_filter_string(t: Option<TokenInfo>) -> Option<TokenInfo> {
    match t {
        Some(p) => if spec_is_string_token(p.kind) {
            Some(p)
        } else {
            None
        },
        None => None,
    }
}

/// The string token at the cursor: the token before the cursor when it is a
/// string, else the token after it when that one is.
pub open spec fn spec_string_position_info(q: CursorQuery) -> Option<TokenInfo> {
    match spec_filter_string(q.before) {
        Some(p) => Some(p),
        None => spec_filter_string(q.after),
    }
}

/// One layer of matching quote characters stripped from `s`.
pub open spec fn spec_trim_quotes(s: Seq<char>) -> Seq<char> {
    if s.len() >= 2 && s[0] == '"' && s[s.len() - 1] == '"' {
        s.subrange(1, s.len() - 1)
    } else if s.len() >= 2 && s[0] == '\'' && s[s.len() - 1] == '\'' {
        s.subrange(1, s.len() - 1)
    } else {
        s
    }
}

/// The string value of a cursor token: the tree's parsed value when the
/// token is a value in the tree, else its raw text with one layer of
/// matching quotes stripped.
pub open spec fn spec_extract_string_value(p: TokenInfo) -> Seq<char> {
    match p.value {
        Some(v) => v.1@,
        None => spec_trim_quotes(p.text@),
    }
}

/// Find the first ancestor at or after `from` with kind `c`.
pub fn find_class(chain: &Vec<AncestorInfo>, c: NodeClass, from: usize) -> (r: Option<usize>)
    ensures
        match r {
            Some(i) => from <= i < chain@.len() && spec_find_class(chain@, c, from as int) == Some(
                i as int,
            ),
            None => spec_find_class(chain@, c, from as int) is None,
        },
{
    let n = chain.len();
    let mut i = from;
    while i < n
        invariant
            from <= i,
            n == chain@.len(),
            spec_find_class(chain@, c, from as int) == spec_find_class(chain@, c, i as int),
        decreases n - i,
    {
        if chain[i].kind == c {
            return Some(i);
        }
        i += 1;
    }
    None
}

/// Whether `id` occurs among the key identifier segments of `a`.
fn has_ident(a: &AncestorInfo, id: &str) -> (r: bool)
    ensures
        r == spec_has_ident(*a, id@),
{
    let n = a.key_idents.len();
    for i in 0..n
        invariant
            n == a.key_idents@.len(),
            forall|j: int| 0 <= j < i ==> a.key_idents@[j]@ != id@,
    {
        if str_eq(a.key_idents[i].as_str(), id) {
            return true;
        }
    }
    false
}

/// Whether the cursor token sits inside an `inputs = { ... }` inline table.
///
/// The policy follows the fixed ancestor sequence documented on
/// [`spec_inside_inputs_inline_table`].
pub fn is_inside_inputs_inline_table(chain: &Vec<AncestorInfo>) -> (r: bool)
    ensures
        r == spec_inside_inputs_inline_table(chain@),
{
    let inner_entry = match find_class(chain, NodeClass::Entry, 0) {
        Some(i) => i,
        None => {
            return false;
        },
    };
    let inline_table = match find_class(chain, NodeClass::InlineTable, inner_entry) {
        Some(j) => j,
        None => {
            return false;
        },
    };
    let outer_entry = match find_class(chain, NodeClass::Entry, inline_table) {
        Some(k) => k,
        None => {
            return false;
        },
    };
    has_ident(&chain[outer_entry], "inputs")
}

/// The dotted key of the entry enclosing the cursor token.
pub fn entry_key(chain: &Vec<AncestorInfo>) -> (r: Option<String>)
    ensures
        match r {
            Some(k) => spec_entry_key(chain@) == Some(k@),
            None => spec_entry_key(chain@) is None,
        },
{
    match find_class(chain, NodeClass::Entry, 0) {
        Some(i) => {
            if chain[i].has_key {
                Some(join_strings(&chain[i].key_idents, "."))
            } else {
                None
            }
        },
        None => None,
    }
}

/// Find a string token adjacent to the cursor, preferring the token before
/// it.
pub fn find_string_position_info<'a>(q: &'a CursorQuery) -> (r: Option<&'a TokenInfo>)
    ensures
        match r {
            Some(p) => spec_string_position_info(*q) == Some(*p),
            None => spec_string_position_info(*q) is None,
        },
{
    match &q.before {
        Some(p) => {
            if p.kind == TokenClass::BasicString || p.kind == TokenClass::LiteralString {
                return Some(p);
            }
        },
        None => {},
    }
    match &q.after {
        Some(p) => {
            if p.kind == TokenClass::BasicString || p.kind == TokenClass::LiteralString {
                return Some(p);
            }
        },
        None => {},
    }
    None
}

/// Extract the string value of a cursor token, preferring the tree's parsed
/// value and falling back to stripping one layer of matching quotes from
/// the raw token text.
pub fn extract_string_value(p: &TokenInfo) -> (r: String)
    ensures
        r@ == spec_extract_string_value(*p),
{
    match &p.value {
        Some(v) => v.1.clone(),
        None => {
            let s = p.text.as_str();
            let n = s.unicode_len();
            if n >= 2 && s.get_char(0) == '"' && s.get_char(n - 1) == '"' {
                s.substring_char(1, n - 1).to_owned()
            } else if n >= 2 && s.get_char(0) == '\'' && s.get_char(n - 1) == '\'' {
                s.substring_char(1, n - 1).to_owned()
            } else {
                s.to_owned()
            }
        },
    }
}

} // verus!
