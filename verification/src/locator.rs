//! The boundary to the host markup parser.
//!
//! Parsing, the syntax tree and the DOM belong to the `taplo` crate; the
//! engine never reads them directly.  The trusted items below declare the
//! parser's types and wrap the few calls the locator needs; the locator
//! itself then assembles, in ordinary verified code, the plain-value
//! snapshot ([`TreeNode`], [`CursorQuery`]) that every decision of this
//! crate is made — and verified — over.
//!
//! Nothing is claimed about what the parser produces: the snapshot is
//! whatever the parser handed back, and the engine's contracts say what
//! the engine does with any snapshot.

use vstd::prelude::*;

use crate::query::{AncestorInfo, CursorQuery, NodeClass, TokenClass, TokenInfo};
use crate::tree::{Span, TreeNode};

use taplo::dom::node::DomNode;

verus! {

// ---------------------------------------------------------------------------
// Declarations of the parser's types
// ---------------------------------------------------------------------------
#[verifier::external_type_specification]
#[verifier::external_body]
pub struct ExParse(taplo::parser::Parse);

#[verifier::external_type_specification]
#[verifier::external_body]
pub struct ExDomNode(taplo::dom::Node);

#[verifier::external_type_specification]
#[verifier::external_body]
pub struct ExKeys(taplo::dom::Keys);

/// An opaque handle on a node of the parser's syntax tree.  The type
/// itself cannot be declared to the verifier (its language parameter is a
/// foreign trait bound), so the handle hides it in a private field.
#[verifier::external_body]
pub struct SyntaxNodeHandle {
    node: taplo::syntax::SyntaxNode,
}

/// An opaque handle on a token of the parser's syntax tree.
#[verifier::external_body]
pub struct SyntaxTokenHandle {
    token: taplo::syntax::SyntaxToken,
}

/// A parsed string value of the document, with the key path that leads to
/// it and the byte range of its token.
pub struct DomString {
    pub path: Vec<String>,
    pub span: Span,
    pub value: String,
}

// ---------------------------------------------------------------------------
// Trusted wrappers around the parser
// ---------------------------------------------------------------------------
/// Relies on `taplo::parser::parse`: parse a source text.
#[verifier::external_body]
fn parse_source(text: &str) -> taplo::parser::Parse {
    taplo::parser::parse(text)
}

/// Relies on `taplo::parser::Parse::into_syntax`: the syntax tree of a
/// parse.
#[verifier::external_body]
fn parse_into_syntax(p: taplo::parser::Parse) -> SyntaxNodeHandle {
    SyntaxNodeHandle { node: p.into_syntax() }
}

/// Relies on `taplo::parser::Parse::into_dom`: the DOM of a parse.
#[verifier::external_body]
fn parse_into_dom(p: taplo::parser::Parse) -> taplo::dom::Node {
    p.into_dom()
}

/// Relies on `rowan`'s `SyntaxNode::token_at_offset` and `text_range`: the
/// tokens adjacent to a byte offset, as a `(before, after)` pair — both
/// the same token when the offset falls inside one.  An offset outside the
/// document's byte range has no adjacent tokens (`token_at_offset` itself
/// asserts on such an offset, so it is told apart first).
#[verifier::external_body]
fn token_at_offset(root: &SyntaxNodeHandle, offset: u32) -> (Option<SyntaxTokenHandle>, Option<
    SyntaxTokenHandle,
>) {
    let offset = taplo::rowan::TextSize::from(offset);
    let range = root.node.text_range();
    if offset < range.start() || offset > range.end() {
        return (None, None);
    }
    let some = |token: taplo::syntax::SyntaxToken| Some(SyntaxTokenHandle { token });
    match root.node.token_at_offset(offset) {
        taplo::rowan::TokenAtOffset::None => (None, None),
        taplo::rowan::TokenAtOffset::Single(t) => (some(t.clone()), some(t)),
        taplo::rowan::TokenAtOffset::Between(l, r) => (some(l), some(r)),
    }
}

/// Relies on `rowan`'s `SyntaxToken::kind`: the token's kind, folded to
/// the classes the engine reads.
#[verifier::external_body]
fn token_kind_class(t: &SyntaxTokenHandle) -> TokenClass {
    match t.token.kind() {
        taplo::syntax::SyntaxKind::STRING => TokenClass::BasicString,
        taplo::syntax::SyntaxKind::STRING_LITERAL => TokenClass::LiteralString,
        taplo::syntax::SyntaxKind::IDENT => TokenClass::Ident,
        _ => TokenClass::OtherToken,
    }
}

/// Relies on `rowan`'s `SyntaxToken::text`: the raw source text of a
/// token.
#[verifier::external_body]
fn token_text_of(t: &SyntaxTokenHandle) -> String {
    t.token.text().to_string()
}

/// Relies on `rowan`'s `SyntaxToken::text_range`: the byte range of a
/// token.
#[verifier::external_body]
fn token_span_of(t: &SyntaxTokenHandle) -> Span {
    let r = t.token.text_range();
    Span { start: r.start().into(), end: r.end().into() }
}

/// Relies on `rowan`'s `SyntaxToken::parent_ancestors`: the chain of
/// nodes above a token, innermost first.
#[verifier::external_body]
fn token_ancestor_nodes(t: &SyntaxTokenHandle) -> Vec<SyntaxNodeHandle> {
    t.token.parent_ancestors().map(|node| SyntaxNodeHandle { node }).collect()
}

/// Relies on `rowan`'s `SyntaxNode::kind`: the node's kind, folded to the
/// classes the engine reads.
#[verifier::external_body]
fn node_kind_class(n: &SyntaxNodeHandle) -> NodeClass {
    match n.node.kind() {
        taplo::syntax::SyntaxKind::ENTRY => NodeClass::Entry,
        taplo::syntax::SyntaxKind::INLINE_TABLE => NodeClass::InlineTable,
        taplo::syntax::SyntaxKind::VALUE => NodeClass::ValueNode,
        taplo::syntax::SyntaxKind::KEY => NodeClass::KeyNode,
        _ => NodeClass::OtherNode,
    }
}

/// Relies on `rowan`'s `SyntaxNode::children`: the child nodes of a node.
#[verifier::external_body]
fn node_children_of(n: &SyntaxNodeHandle) -> Vec<SyntaxNodeHandle> {
    n.node.children().map(|node| SyntaxNodeHandle { node }).collect()
}

/// Relies on `rowan`'s `SyntaxNode::descendants_with_tokens`: the tokens
/// under a node, in source order.
#[verifier::external_body]
fn node_tokens_of(n: &SyntaxNodeHandle) -> Vec<SyntaxTokenHandle> {
    n.node
        .descendants_with_tokens()
        .filter_map(|e| e.into_token())
        .map(|token| SyntaxTokenHandle { token })
        .collect()
}

/// Relies on `taplo::dom::node::DomNode::syntax`: the byte range of the
/// source text a DOM node came from, when one exists.
#[verifier::external_body]
fn dom_span_of(node: &taplo::dom::Node) -> Option<Span> {
    node.syntax().map(|s| {
        let r = s.text_range();
        Span { start: r.start().into(), end: r.end().into() }
    })
}

/// Relies on `taplo::dom::Keys::iter` and `Key::value`: the key path as
/// plain strings, array indexes as their decimal digits.
#[verifier::external_body]
fn keys_to_path(keys: &taplo::dom::Keys) -> Vec<String> {
    keys.iter()
        .map(|k| match k {
            taplo::dom::KeyOrIndex::Key(key) => key.value().to_string(),
            taplo::dom::KeyOrIndex::Index(i) => i.to_string(),
        })
        .collect()
}

/// Relies on `taplo::dom::Node`'s accessors (`as_str`, `as_table`,
/// `Table::entries`, `Str::value`, `Key::value`): fold a DOM node into
/// the tree model, node for node; entry order is the parse order the DOM
/// keeps.
#[verifier::external_body]
fn dom_to_tree(node: &taplo::dom::Node) -> TreeNode {
    let span = dom_span_of(node);
    if let Some(s) = node.as_str() {
        TreeNode::Str { span, value: s.value().to_string() }
    } else if let Some(t) = node.as_table() {
        let read = t.entries().read();
        let entries = read.iter().map(|(k, v)| (k.value().to_string(), dom_to_tree(v))).collect();
        TreeNode::Table { span, entries }
    } else {
        TreeNode::Other { span }
    }
}

/// Relies on `taplo::dom::Node::flat_iter` and the accessors above: every
/// string value of the DOM with its key path and its token's byte range.
#[verifier::external_body]
fn dom_string_values(dom: &taplo::dom::Node) -> Vec<DomString> {
    dom.flat_iter()
        .filter_map(|(keys, node)| {
            let value = node.as_str()?.value().to_string();
            let span = dom_span_of(&node)?;
            Some(DomString { path: keys_to_path(&keys), span, value })
        })
        .collect()
}

// ---------------------------------------------------------------------------
// The locator itself (verified assembly of the snapshot)
// ---------------------------------------------------------------------------
/// Describe one ancestor node: its class and, when it has a key child, the
/// key's identifier segments.
fn ancestor_info(n: &SyntaxNodeHandle) -> AncestorInfo {
    let kind = node_kind_class(n);
    let children = node_children_of(n);
    let mut has_key = false;
    let mut key_idents: Vec<String> = Vec::new();
    let m = children.len();
    let mut i: usize = 0;
    while i < m
        invariant
            m == children@.len(),
        decreases m - i,
    {
        if node_kind_class(&children[i]) == NodeClass::KeyNode {
            has_key = true;
            let toks = node_tokens_of(&children[i]);
            let tn = toks.len();
            let mut j: usize = 0;
            while j < tn
                invariant
                    tn == toks@.len(),
                decreases tn - j,
            {
                if token_kind_class(&toks[j]) == TokenClass::Ident {
                    key_idents.push(token_text_of(&toks[j]));
                }
                j += 1;
            }
            i = m;
        } else {
            i += 1;
        }
    }
    AncestorInfo { kind, has_key, key_idents }
}

/// The parsed string value paired with a token's byte range, if the token
/// is a value in the document tree.
fn dom_value_at(strings: &Vec<DomString>, span: &Span) -> Option<(Vec<String>, String)> {
    let n = strings.len();
    for i in 0..n
        invariant
            n == strings@.len(),
    {
        if strings[i].span.start == span.start && strings[i].span.end == span.end {
            return Some((strings[i].path.clone(), strings[i].value.clone()));
        }
    }
    None
}

/// Describe a cursor-adjacent token: kind, text, range, ancestor chain,
/// and the parsed value it stands for, when it is a value of the tree.
fn token_info(tok: &SyntaxTokenHandle, strings: &Vec<DomString>) -> TokenInfo {
    let kind = token_kind_class(tok);
    let text = token_text_of(tok);
    let span = token_span_of(tok);
    let nodes = token_ancestor_nodes(tok);
    let mut ancestors: Vec<AncestorInfo> = Vec::new();
    let m = nodes.len();
    for i in 0..m
        invariant
            m == nodes@.len(),
    {
        ancestors.push(ancestor_info(&nodes[i]));
    }
    let value = dom_value_at(strings, &span);
    TokenInfo { kind, text, span, ancestors, value }
}

/// Parse a source text into the document tree model.
pub fn parse_document_tree(text: &str) -> TreeNode {
    let p = parse_source(text);
    let dom = parse_into_dom(p);
    dom_to_tree(&dom)
}

/// Parse a source text and take the snapshot of the cursor context at the
/// given byte offset: the document tree together with the cursor-adjacent
/// tokens and everything the engine reads about them.
///
/// The tree and the cursor snapshot come from two parses of the same text
/// (the parser is deterministic); no contract relates the two, and every
/// contract of the engine holds for any pair handed to it.
pub fn parse_and_query(text: &str, offset: u32) -> (TreeNode, CursorQuery) {
    let p = parse_source(text);
    let syntax = parse_into_syntax(p);
    let p2 = parse_source(text);
    let dom = parse_into_dom(p2);
    let tree = dom_to_tree(&dom);
    let strings = dom_string_values(&dom);
    let (before_tok, after_tok) = token_at_offset(&syntax, offset);
    let before = match &before_tok {
        Some(t) => Some(token_info(t, &strings)),
        None => None,
    };
    let after = match &after_tok {
        Some(t) => Some(token_info(t, &strings)),
        None => None,
    };
    (tree, CursorQuery { before, after })
}

} // verus!
