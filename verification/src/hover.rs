//! Hover content rendering and the hover/navigation entry points.
//!
//! All output is Markdown.  Sections appear in a fixed order, separated by
//! a blank line; an absent optional section is simply omitted.

use vstd::prelude::*;

use crate::mthds_resolution::{
    find_native_concept, is_model_field, spec_classify, spec_is_model_field, spec_native_concept,
    spec_resolve, classify_reference, resolve_reference, NativeConcept, NativeConceptView,
    ReferenceKind, ResolvedReference,
};
use crate::query::{
    extract_string_value, find_string_position_info, spec_extract_string_value,
    spec_string_position_info, CursorQuery, TokenInfo,
};
use crate::strutil::{
    join_strings, spec_ends_with, spec_join, spec_starts_with, str_ends_with, str_starts_with,
};
use crate::tree::{
    node_get, node_get_str, path_get, spec_node_get, spec_node_get_str, spec_path_get, Span,
    TreeNode,
};

verus! {

// ---------------------------------------------------------------------------
// Resolved references
// ---------------------------------------------------------------------------
/// One rendered input of a pipe: `` `key`: Concept `` (a `?` stands for a
/// value that is not a string).
pub open spec fn spec_input_item(e: (String, TreeNode)) -> Seq<char> {
    "`"@ + e.0@ + "`: "@ + match e.1.spec_as_str() {
        Some(v) => v,
        None => "?"@,
    }
}

/// One rendered field name of a concept structure: `` `name` ``.
pub open spec fn spec_field_item(e: (String, TreeNode)) -> Seq<char> {
    "`"@ + e.0@ + "`"@
}

/// Hover content for a resolved pipe: a header with the pipe's name and its
/// `type` field when one exists, then the description, the inputs and the
/// output, each only when present and non-empty.
pub open spec fn spec_pipe_hover(name: Seq<char>, target: TreeNode) -> Seq<char> {
    let header = match spec_node_get_str(target, "type"@) {
        Some(t) => "**"@ + name + "** `"@ + t + "`"@,
        None => "**"@ + name + "**"@,
    };
    let s1 = match spec_node_get_str(target, "description"@) {
        Some(d) => if d.len() > 0 {
            header + "\n\n"@ + d
        } else {
            header
        },
        None => header,
    };
    let s2 = match spec_node_get(target, "inputs"@) {
        Some(inputs) => match inputs.spec_as_table() {
            Some(entries) => if entries.len() > 0 {
                s1 + "\n\n**Inputs:** "@ + spec_join(
                    entries.map_values(|e: (String, TreeNode)| spec_input_item(e)),
                    ", "@,
                )
            } else {
                s1
            },
            None => s1,
        },
        None => s1,
    };
    match spec_node_get_str(target, "output"@) {
        Some(o) => if o.len() > 0 {
            s2 + "\n\n**Output:** `"@ + o + "`"@
        } else {
            s2
        },
        None => s2,
    }
}

/// Hover content for a resolved concept: a header with the concept's name,
/// then the description, the refined parent and the structure field names,
/// each only when present and non-empty.
pub open spec fn spec_concept_hover(name: Seq<char>, target: TreeNode) -> Seq<char> {
    let header = "**"@ + name + "**"@;
    let s1 = match spec_node_get_str(target, "description"@) {
        Some(d) => if d.len() > 0 {
            header + "\n\n"@ + d
        } else {
            header
        },
        None => header,
    };
    let s2 = match spec_node_get_str(target, "refines"@) {
        Some(p) => if p.len() > 0 {
            s1 + "\n\n**Refines:** `"@ + p + "`"@
        } else {
            s1
        },
        None => s1,
    };
    match spec_node_get(target, "structure"@) {
        Some(structure) => match structure.spec_as_table() {
            Some(entries) => if entries.len() > 0 {
                s2 + "\n\n**Fields:** "@ + spec_join(
                    entries.map_values(|e: (String, TreeNode)| spec_field_item(e)),
                    ", "@,
                )
            } else {
                s2
            },
            None => s2,
        },
        None => s2,
    }
}

/// Hover content for a resolved reference; empty when the target node is
/// not a table.
pub open spec fn spec_mthds_hover_content(
    kind: ReferenceKind,
    name: Seq<char>,
    target: TreeNode,
) -> Seq<char> {
    if target.spec_as_table() is Some {
        match kind {
            ReferenceKind::Pipe => spec_pipe_hover(name, target),
            ReferenceKind::Concept => spec_concept_hover(name, target),
        }
    } else {
        Seq::empty()
    }
}

/// Render the inputs of a pipe, one item per entry.
fn render_input_items(entries: &Vec<(String, TreeNode)>) -> (r: Vec<String>)
    ensures
        r@.map_values(|s: String| s@) == entries@.map_values(
            |e: (String, TreeNode)| spec_input_item(e),
        ),
{
    let mut items: Vec<String> = Vec::new();
    let n = entries.len();
    for i in 0..n
        invariant
            n == entries@.len(),
            items@.map_values(|s: String| s@) =~= entries@.take(i as int).map_values(
                |e: (String, TreeNode)| spec_input_item(e),
            ),
    {
        let mut item = "`".to_owned();
        item.append(entries[i].0.as_str());
        item.append("`: ");
        match entries[i].1.as_str() {
            Some(v) => item.append(v.as_str()),
            None => item.append("?"),
        }
        items.push(item);
        proof {
            assert(entries@.take(i + 1).map_values(|e: (String, TreeNode)| spec_input_item(e))
                =~= entries@.take(i as int).map_values(
                |e: (String, TreeNode)| spec_input_item(e),
            ).push(spec_input_item(entries@[i as int])));
        }
    }
    proof {
        assert(entries@.take(n as int) =~= entries@);
    }
    items
}

/// Render the structure field names of a concept, one item per entry.
fn render_field_items(entries: &Vec<(String, TreeNode)>) -> (r: Vec<String>)
    ensures
        r@.map_values(|s: String| s@) == entries@.map_values(
            |e: (String, TreeNode)| spec_field_item(e),
        ),
{
    let mut items: Vec<String> = Vec::new();
    let n = entries.len();
    for i in 0..n
        invariant
            n == entries@.len(),
            items@.map_values(|s: String| s@) =~= entries@.take(i as int).map_values(
                |e: (String, TreeNode)| spec_field_item(e),
            ),
    {
        let mut item = "`".to_owned();
        item.append(entries[i].0.as_str());
        item.append("`");
        items.push(item);
        proof {
            assert(entries@.take(i + 1).map_values(|e: (String, TreeNode)| spec_field_item(e))
                =~= entries@.take(i as int).map_values(
                |e: (String, TreeNode)| spec_field_item(e),
            ).push(spec_field_item(entries@[i as int])));
        }
    }
    proof {
        assert(entries@.take(n as int) =~= entries@);
    }
    items
}

/// Build the hover content for a resolved reference.
pub fn build_mthds_hover_content(resolved: &ResolvedReference) -> (r: String)
    ensures
        r@ == spec_mthds_hover_content(resolved.kind, resolved.ref_name@, *resolved.target_node),
{
    let target = resolved.target_node;
    let is_table = match target.as_table() {
        Some(_) => true,
        None => false,
    };
    if !is_table {
        return String::new();
    }
    let name = resolved.ref_name.as_str();
    match resolved.kind {
        ReferenceKind::Pipe => {
            let mut out = "**".to_owned();
            out.append(name);
            match node_get_str(target, "type") {
                Some(t) => {
                    out.append("** `");
                    out.append(t.as_str());
                    out.append("`");
                },
                None => {
                    out.append("**");
                },
            }
            match node_get_str(target, "description") {
                Some(d) => {
                    if d.as_str().unicode_len() > 0 {
                        out.append("\n\n");
                        out.append(d.as_str());
                    }
                },
                None => {},
            }
            match node_get(target, "inputs") {
                Some(inputs) => {
                    match inputs.as_table() {
                        Some(entries) => {
                            if entries.len() > 0 {
                                let items = render_input_items(entries);
                                out.append("\n\n**Inputs:** ");
                                let joined = join_strings(&items, ", ");
                                out.append(joined.as_str());
                            }
                        },
                        None => {},
                    }
                },
                None => {},
            }
            match node_get_str(target, "output") {
                Some(o) => {
                    if o.as_str().unicode_len() > 0 {
                        out.append("\n\n**Output:** `");
                        out.append(o.as_str());
                        out.append("`");
                    }
                },
                None => {},
            }
            out
        },
        ReferenceKind::Concept => {
            let mut out = "**".to_owned();
            out.append(name);
            out.append("**");
            match node_get_str(target, "description") {
                Some(d) => {
                    if d.as_str().unicode_len() > 0 {
                        out.append("\n\n");
                        out.append(d.as_str());
                    }
                },
                None => {},
            }
            match node_get_str(target, "refines") {
                Some(p) => {
                    if p.as_str().unicode_len() > 0 {
                        out.append("\n\n**Refines:** `");
                        out.append(p.as_str());
                        out.append("`");
                    }
                },
                None => {},
            }
            match node_get(target, "structure") {
                Some(structure) => {
                    match structure.as_table() {
                        Some(entries) => {
                            if entries.len() > 0 {
                                let items = render_field_items(entries);
                                out.append("\n\n**Fields:** ");
                                let joined = join_strings(&items, ", ");
                                out.append(joined.as_str());
                            }
                        },
                        None => {},
                    }
                },
                None => {},
            }
            out
        },
    }
}

// ---------------------------------------------------------------------------
// Model field hover
// ---------------------------------------------------------------------------
/// The sigil kind word of a model field value: the value's first character
/// selects the resolution strategy.
pub open spec fn spec_model_sigil(value: Seq<char>) -> Option<Seq<char>> {
    if value.len() >= 1 && value[0] == '$' {
        Some("preset"@)
    } else if value.len() >= 1 && value[0] == '@' {
        Some("alias"@)
    } else if value.len() >= 1 && value[0] == '~' {
        Some("waterfall"@)
    } else if value.len() >= 1 && value[0] == '#' {
        Some("handle"@)
    } else {
        None
    }
}

/// The bare model name: the value without its sigil, or the whole value
/// when no sigil matched.
pub open spec fn spec_model_bare_name(value: Seq<char>) -> Seq<char> {
    if spec_model_sigil(value) is Some {
        value.drop_first()
    } else {
        value
    }
}

/// The short subject label of a pipe type: the type with its literal `Pipe`
/// prefix stripped, when the rest is non-empty.
pub open spec fn spec_subject_label(pipe_type: Option<Seq<char>>) -> Option<Seq<char>> {
    match pipe_type {
        Some(t) => if spec_starts_with(t, "Pipe"@) && t.len() > "Pipe"@.len() {
            Some(t.skip("Pipe"@.len() as int))
        } else {
            None
        },
        None => None,
    }
}

/// Hover content for a model field value, composed from the bare name, the
/// subject label of the enclosing pipe's type, and the sigil kind word.
pub open spec fn spec_model_hover(value: Seq<char>, pipe_type: Option<Seq<char>>) -> Seq<char> {
    let base = "**"@ + spec_model_bare_name(value) + "** — "@;
    match (spec_subject_label(pipe_type), spec_model_sigil(value)) {
        (Some(subject), Some(kind)) => base + subject + " model "@ + kind,
        (Some(subject), None) => base + subject + " model"@,
        (None, Some(kind)) => base + "model "@ + kind,
        (None, None) => base + "model"@,
    }
}

/// Build the hover content for a model field value.
///
/// The sigil convention is `$` preset, `@` alias, `~` waterfall, `#`
/// handle; when `pipe_type` is given, its `Pipe` prefix is stripped to give
/// context (`PipeLLM` becomes `LLM`).
pub fn build_model_hover(value: &str, pipe_type: Option<&str>) -> (r: String)
    ensures
        r@ == spec_model_hover(
            value@,
            match pipe_type {
                Some(t) => Some(t@),
                None => None,
            },
        ),
{
    let n = value.unicode_len();
    let kind: Option<&str> = if n >= 1 {
        let c = value.get_char(0);
        if c == '$' {
            Some("preset")
        } else if c == '@' {
            Some("alias")
        } else if c == '~' {
            Some("waterfall")
        } else if c == '#' {
            Some("handle")
        } else {
            None
        }
    } else {
        None
    };
    let name: &str = match kind {
        Some(_) => {
            proof {
                assert(value@.subrange(1, n as int) =~= value@.drop_first());
            }
            value.substring_char(1, n)
        },
        None => value,
    };
    let subject: Option<&str> = match pipe_type {
        Some(t) => {
            let plen = "Pipe".unicode_len();
            let tlen = t.unicode_len();
            if str_starts_with(t, "Pipe") && tlen > plen {
                Some(t.substring_char(plen, tlen))
            } else {
                None
            }
        },
        None => None,
    };
    proof {
        match pipe_type {
            Some(t) => {
                if spec_starts_with(t@, "Pipe"@) && t@.len() > "Pipe"@.len() {
                    assert(t@.subrange("Pipe"@.len() as int, t@.len() as int) =~= t@.skip(
                        "Pipe"@.len() as int,
                    ));
                }
            },
            None => {},
        }
    }
    let mut out = "**".to_owned();
    out.append(name);
    out.append("** — ");
    match (subject, kind) {
        (Some(s), Some(k)) => {
            out.append(s);
            out.append(" model ");
            out.append(k);
        },
        (Some(s), None) => {
            out.append(s);
            out.append(" model");
        },
        (None, Some(k)) => {
            out.append("model ");
            out.append(k);
        },
        (None, None) => {
            out.append("model");
        },
    }
    out
}

// ---------------------------------------------------------------------------
// Native concept hover
// ---------------------------------------------------------------------------
/// One rendered field of a native concept: `` `name`: type ``.
pub open spec fn spec_native_field_item(f: (Seq<char>, Seq<char>)) -> Seq<char> {
    "`"@ + f.0 + "`: "@ + f.1
}

/// Hover content for a native concept: a header with the name and a
/// `(native)` tag, the description, and the fields when there are any.
pub open spec fn spec_native_hover(c: NativeConceptView) -> Seq<char> {
    let s1 = "**"@ + c.name + "** *(native)*"@ + "\n\n"@ + c.description;
    if c.fields.len() > 0 {
        s1 + "\n\n**Fields:** "@ + spec_join(
            c.fields.map_values(|f: (Seq<char>, Seq<char>)| spec_native_field_item(f)),
            ", "@,
        )
    } else {
        s1
    }
}

/// Build the hover content for a native (built-in) concept.
pub fn build_native_concept_hover(concept: &NativeConcept) -> (r: String)
    ensures
        r@ == spec_native_hover(concept@),
{
    let mut out = "**".to_owned();
    out.append(concept.name.as_str());
    out.append("** *(native)*");
    out.append("\n\n");
    out.append(concept.description.as_str());
    let n = concept.fields.len();
    if n > 0 {
        let mut items: Vec<String> = Vec::new();
        for i in 0..n
            invariant
                n == concept.fields@.len(),
                items@.map_values(|s: String| s@) =~= concept.fields@.take(i as int).map_values(
                    |f: (String, String)| spec_native_field_item((f.0@, f.1@)),
                ),
        {
            let mut item = "`".to_owned();
            item.append(concept.fields[i].0.as_str());
            item.append("`: ");
            item.append(concept.fields[i].1.as_str());
            items.push(item);
            proof {
                assert(concept.fields@.take(i + 1).map_values(
                    |f: (String, String)| spec_native_field_item((f.0@, f.1@)),
                ) =~= concept.fields@.take(i as int).map_values(
                    |f: (String, String)| spec_native_field_item((f.0@, f.1@)),
                ).push(spec_native_field_item((concept.fields@[i as int].0@, concept.fields@[
                    i as int].1@))));
            }
        }
        out.append("\n\n**Fields:** ");
        proof {
            assert(concept.fields@.take(n as int) =~= concept.fields@);
            assert(concept.fields@.map_values(
                |f: (String, String)| spec_native_field_item((f.0@, f.1@)),
            ) =~= concept@.fields.map_values(
                |f: (Seq<char>, Seq<char>)| spec_native_field_item(f),
            ));
        }
        let joined = join_strings(&items, ", ");
        out.append(joined.as_str());
    }
    out
}

// ---------------------------------------------------------------------------
// The hover cascade and navigation
// ---------------------------------------------------------------------------
/// The `type` field of the table enclosing a cursor value: the value's key
/// path without its last segment leads to the enclosing table, whose `type`
/// entry must be a string.
pub open spec fn spec_sibling_type(dom: TreeNode, p: TokenInfo) -> Option<Seq<char>> {
    match p.value {
        Some(v) => if v.0@.len() >= 1 {
            match spec_path_get(dom, v.0@.map_values(|s: String| s@).take(v.0@.len() - 1)) {
                Some(parent) => spec_node_get_str(parent, "type"@),
                None => None,
            }
        } else {
            None
        },
        None => None,
    }
}

/// The model-field branch of the hover cascade: hover content for the value
/// of a model field, labelled with the enclosing pipe's type when one is
/// found.
pub open spec fn spec_model_branch(dom: TreeNode, q: CursorQuery) -> Option<Seq<char>> {
    if spec_is_model_field(q) {
        match spec_string_position_info(q) {
            Some(p) => {
                let value = spec_extract_string_value(p);
                if value.len() > 0 {
                    Some(spec_model_hover(value, spec_sibling_type(dom, p)))
                } else {
                    None
                }
            },
            None => None,
        }
    } else {
        None
    }
}

/// The complete hover decision: a resolved reference with non-empty content
/// wins; an unresolved concept reference falls back to the native registry;
/// a model field value is described last; anything else yields nothing.
pub open spec fn spec_mthds_hover(dom: TreeNode, q: CursorQuery) -> Option<Seq<char>> {
    match spec_resolve(dom, q) {
        Some((kind, name, target)) => {
            let content = spec_mthds_hover_content(kind, name, target);
            if content.len() > 0 {
                Some(content)
            } else {
                spec_model_branch(dom, q)
            }
        },
        None => match spec_classify(q) {
            Some((kind, name)) => if kind == ReferenceKind::Concept {
                match spec_native_concept(name) {
                    Some(c) => Some(spec_native_hover(c)),
                    None => spec_model_branch(dom, q),
                }
            } else {
                spec_model_branch(dom, q)
            },
            None => spec_model_branch(dom, q),
        },
    }
}

/// The `type` field of the table enclosing a cursor value, when the cursor
/// value is paired with a key path in the tree.
fn sibling_pipe_type<'a>(dom: &'a TreeNode, p: &TokenInfo) -> (r: Option<&'a String>)
    ensures
        match r {
            Some(s) => spec_sibling_type(*dom, *p) == Some(s@),
            None => spec_sibling_type(*dom, *p) is None,
        },
{
    match &p.value {
        Some(v) => {
            let path = &v.0;
            if path.len() >= 1 {
                let m = path.len() - 1;
                let mut parent_keys: Vec<String> = Vec::new();
                for i in 0..m
                    invariant
                        m == path@.len() - 1,
                        parent_keys@.map_values(|s: String| s@) =~= path@.map_values(
                            |s: String| s@,
                        ).take(i as int),
                {
                    parent_keys.push(path[i].clone());
                    proof {
                        assert(path@.map_values(|s: String| s@).take(i + 1) =~= path@.map_values(
                            |s: String| s@,
                        ).take(i as int).push(path@[i as int]@));
                    }
                }
                match path_get(dom, &parent_keys) {
                    Some(parent) => node_get_str(parent, "type"),
                    None => None,
                }
            } else {
                None
            }
        },
        None => None,
    }
}

/// The model-field branch of the hover cascade.
pub fn model_field_hover(dom: &TreeNode, q: &CursorQuery) -> (r: Option<String>)
    ensures
        match r {
            Some(s) => spec_model_branch(*dom, *q) == Some(s@),
            None => spec_model_branch(*dom, *q) is None,
        },
{
    if !is_model_field(q) {
        return None;
    }
    match find_string_position_info(q) {
        Some(p) => {
            let value = extract_string_value(p);
            if value.as_str().unicode_len() == 0 {
                return None;
            }
            let pipe_type = sibling_pipe_type(dom, p);
            let content = build_model_hover(
                value.as_str(),
                match &pipe_type {
                    Some(s) => Some(s.as_str()),
                    None => None,
                },
            );
            Some(content)
        },
        None => None,
    }
}

/// Produce the hover content for the cursor, running the full cascade:
/// resolved reference, then native concept fallback, then model field.
pub fn mthds_hover_content(dom: &TreeNode, q: &CursorQuery) -> (r: Option<String>)
    ensures
        match r {
            Some(s) => spec_mthds_hover(*dom, *q) == Some(s@),
            None => spec_mthds_hover(*dom, *q) is None,
        },
{
    match resolve_reference(dom, q) {
        Some(resolved) => {
            let content = build_mthds_hover_content(&resolved);
            if content.as_str().unicode_len() > 0 {
                Some(content)
            } else {
                model_field_hover(dom, q)
            }
        },
        None => {
            match classify_reference(q) {
                Some(classified) => {
                    if classified.kind == ReferenceKind::Concept {
                        match find_native_concept(classified.ref_name.as_str()) {
                            Some(native) => Some(build_native_concept_hover(&native)),
                            None => model_field_hover(dom, q),
                        }
                    } else {
                        model_field_hover(dom, q)
                    }
                },
                None => model_field_hover(dom, q),
            }
        },
    }
}

/// The navigation target of the cursor: the source byte range of the node
/// the reference resolves to, when the reference resolves and its target
/// has a source range.  A native concept has no source range, so
/// navigation yields nothing even where hover succeeds through the
/// registry.
pub open spec fn spec_goto_target(dom: TreeNode, q: CursorQuery) -> Option<Span> {
    match spec_resolve(dom, q) {
        Some((kind, name, target)) => target.spec_span(),
        None => None,
    }
}

/// Resolve the reference at the cursor and hand back its definition's
/// source byte range, for go-to-definition.
pub fn goto_definition_target(dom: &TreeNode, q: &CursorQuery) -> (r: Option<Span>)
    ensures
        r == spec_goto_target(*dom, *q),
{
    match resolve_reference(dom, q) {
        Some(res) => res.target_node.span(),
        None => None,
    }
}

/// Whether a document identifier names a pipeline definition document:
/// navigation runs only for these.
pub fn is_mthds_uri(uri: &str) -> (r: bool)
    ensures
        r == spec_ends_with(uri@, ".mthds"@),
{
    str_ends_with(uri, ".mthds")
}

/// Whether a document identifier is eligible for semantic hover: both
/// recognized extensions count.
pub fn is_mthds_hover_uri(uri: &str) -> (r: bool)
    ensures
        r == (spec_ends_with(uri@, ".mthds"@) || spec_ends_with(uri@, ".plx"@)),
{
    str_ends_with(uri, ".mthds") || str_ends_with(uri, ".plx")
}

} // verus!
