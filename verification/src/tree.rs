//! Plain-value model of a parsed document tree.
//!
//! The host parser produces an immutable DOM; the engine only ever reads
//! string values and string-keyed tables from it, so the model keeps exactly
//! that: a node is a string, a table of ordered key/value entries, or some
//! other value the engine never inspects.  Every node carries the byte range
//! of the source text it came from, when one exists, so that a resolved
//! definition can be mapped back to a location.

use vstd::prelude::*;

verus! {

/// Byte range of a piece of source text.
#[derive(Clone, Copy, PartialEq, Eq, Structural, Debug)]
pub struct Span {
    pub start: u32,
    pub end: u32,
}

/// A node of the document tree, reduced to what the engine reads.
pub enum TreeNode {
    /// A string value (already unescaped by the parser).
    Str { span: Option<Span>, value: String },
    /// A table; entries keep the order in which they were parsed.
    Table { span: Option<Span>, entries: Vec<(String, TreeNode)> },
    /// Any other kind of value (integer, array, date, ...).
    Other { span: Option<Span> },
}

impl TreeNode {
    /// The source byte range of this node, if it has one.
    pub open spec fn spec_span(&self) -> Option<Span> {
        match self {
            TreeNode::Str { span, .. } => *span,
            TreeNode::Table { span, .. } => *span,
            TreeNode::Other { span } => *span,
        }
    }

    /// The string value of this node, if it is a string.
    pub open spec fn spec_as_str(&self) -> Option<Seq<char>> {
        match self {
            TreeNode::Str { value, .. } => Some(value@),
            _ => None,
        }
    }

    /// The entries of this node, if it is a table.
    pub open spec fn spec_as_table(&self) -> Option<Seq<(String, TreeNode)>> {
        match self {
            TreeNode::Table { entries, .. } => Some(entries@),
            _ => None,
        }
    }

    /// The source byte range of this node, if it has one.
    pub fn span(&self) -> (r: Option<Span>)
        ensures
            r == self.spec_span(),
    {
        match self {
            TreeNode::Str { span, .. } => *span,
            TreeNode::Table { span, .. } => *span,
            TreeNode::Other { span } => *span,
        }
    }

    /// The string value of this node, if it is a string.
    pub fn as_str(&self) -> (r: Option<&String>)
        ensures
            match r {
                Some(s) => self.spec_as_str() == Some(s@),
                None => self.spec_as_str() is None,
            },
    {
        match self {
            TreeNode::Str { value, .. } => Some(value),
            _ => None,
        }
    }

    /// The entries of this node, if it is a table.
    pub fn as_table(&self) -> (r: Option<&Vec<(String, TreeNode)>>)
        ensures
            match r {
                Some(e) => self.spec_as_table() == Some(e@),
                None => self.spec_as_table() is None,
            },
    {
        match self {
            TreeNode::Table { entries, .. } => Some(entries),
            _ => None,
        }
    }
}

/// The value bound to `key` in an entry list: the last entry whose key
/// matches, if any — a later duplicate shadows an earlier one, as in the
/// host parser's own table lookup.
pub open spec fn spec_table_get(entries: Seq<(String, TreeNode)>, key: Seq<char>) -> Option<
    TreeNode,
>
    decreases entries.len(),
{
    if entries.len() == 0 {
        None
    } else if entries.last().0@ == key {
        Some(entries.last().1)
    } else {
        spec_table_get(entries.drop_last(), key)
    }
}

/// The value bound to `key` in `node`, when `node` is a table.
pub open spec fn spec_node_get(node: TreeNode, key: Seq<char>) -> Option<TreeNode> {
    match node.spec_as_table() {
        Some(entries) => spec_table_get(entries, key),
        None => None,
    }
}

/// The string bound to `key` in `node`, when `node` is a table and the
/// value is a string.
pub open spec fn spec_node_get_str(node: TreeNode, key: Seq<char>) -> Option<Seq<char>> {
    match spec_node_get(node, key) {
        Some(v) => v.spec_as_str(),
        None => None,
    }
}

/// The node reached from `root` by the key path `path`, following tables
/// segment by segment.
pub open spec fn spec_path_get(root: TreeNode, path: Seq<Seq<char>>) -> Option<TreeNode>
    decreases path.len(),
{
    if path.len() == 0 {
        Some(root)
    } else {
        match spec_node_get(root, path[0]) {
            Some(next) => spec_path_get(next, path.drop_first()),
            None => None,
        }
    }
}

/// The node reached by the two-segment path `[k1, k2]`.
pub open spec fn spec_path2_get(root: TreeNode, k1: Seq<char>, k2: Seq<char>) -> Option<TreeNode> {
    match spec_node_get(root, k1) {
        Some(next) => spec_node_get(next, k2),
        None => None,
    }
}

/// Look up `key` among `entries`; the last matching entry wins.
pub fn table_get<'a>(entries: &'a Vec<(String, TreeNode)>, key: &str) -> (r: Option<&'a TreeNode>)
    ensures
        match r {
            Some(v) => spec_table_get(entries@, key@) == Some(*v),
            None => spec_table_get(entries@, key@) is None,
        },
{
    proof {
        assert(entries@.take(entries@.len() as int) =~= entries@);
    }
    let n = entries.len();
    let mut i: usize = n;
    while i > 0
        invariant
            i <= n,
            n == entries@.len(),
            spec_table_get(entries@, key@) == spec_table_get(entries@.take(i as int), key@),
        decreases i,
    {
        i -= 1;
        proof {
            assert(entries@.take(i + 1).drop_last() =~= entries@.take(i as int));
            assert(entries@.take(i + 1).last() == entries@[i as int]);
        }
        if crate::strutil::str_eq(entries[i].0.as_str(), key) {
            return Some(&entries[i].1);
        }
    }
    None
}

/// Look up `key` in `node`, when `node` is a table.
pub fn node_get<'a>(node: &'a TreeNode, key: &str) -> (r: Option<&'a TreeNode>)
    ensures
        match r {
            Some(v) => spec_node_get(*node, key@) == Some(*v),
            None => spec_node_get(*node, key@) is None,
        },
{
    match node.as_table() {
        Some(entries) => table_get(entries, key),
        None => None,
    }
}

/// The string bound to `key` in `node`, when present.
pub fn node_get_str<'a>(node: &'a TreeNode, key: &str) -> (r: Option<&'a String>)
    ensures
        match r {
            Some(s) => spec_node_get_str(*node, key@) == Some(s@),
            None => spec_node_get_str(*node, key@) is None,
        },
{
    match node_get(node, key) {
        Some(v) => v.as_str(),
        None => None,
    }
}

/// Walk the key path `path` from `root`, following tables.
pub fn path_get<'a>(root: &'a TreeNode, path: &Vec<String>) -> (r: Option<&'a TreeNode>)
    ensures
        match r {
            Some(v) => spec_path_get(*root, path@.map_values(|s: String| s@)) == Some(*v),
            None => spec_path_get(*root, path@.map_values(|s: String| s@)) is None,
        },
{
    let ghost full: Seq<Seq<char>> = path@.map_values(|s: String| s@);
    proof {
        assert(full.skip(0) =~= full);
    }
    let mut cur: &'a TreeNode = root;
    let n = path.len();
    for i in 0..n
        invariant
            n == path@.len(),
            full == path@.map_values(|s: String| s@),
            spec_path_get(*root, full) == spec_path_get(*cur, full.skip(i as int)),
    {
        proof {
            assert(full.skip(i as int).drop_first() =~= full.skip(i + 1));
            assert(full.skip(i as int)[0] == path@[i as int]@);
        }
        match node_get(cur, path[i].as_str()) {
            Some(next) => {
                cur = next;
            },
            None => {
                return None;
            },
        }
    }
    proof {
        assert(full.skip(n as int).len() == 0);
    }
    Some(cur)
}

} // verus!
