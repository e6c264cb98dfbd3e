//! Reference classification, qualifier normalization and resolution.
//!
//! A cursor that sits on a string token inside a reference field denotes a
//! reference to a pipe or to a concept.  The field is recognized by the
//! dotted key of its enclosing entry (`pipe`, `main_pipe`,
//! `default_pipe_code` for pipes; `output`, `refines` for concepts), or by
//! sitting inside an `inputs = { ... }` inline table, which makes the value
//! a concept reference whatever its own key is.  Concept names are
//! normalized first: a multiplicity suffix (`[...]`) and a domain prefix
//! (everything up to the last `.`) are stripped.  A reference resolves to
//! the node found under the two-segment path `pipe.<name>` or
//! `concept.<name>` of the document tree, and to nothing otherwise.

use vstd::prelude::*;

use crate::query::{
    entry_key, extract_string_value, find_string_position_info, is_inside_inputs_inline_table,
    spec_entry_key, spec_extract_string_value, spec_inside_inputs_inline_table,
    spec_string_position_info, CursorQuery,
};
use crate::strutil::{find_char, rfind_char, str_eq};
use crate::tree::{node_get, spec_path2_get, TreeNode};

verus! {

/// The two kinds of reference; the kind alone determines the root key that
/// resolution looks under.
#[derive(Clone, Copy, PartialEq, Eq, Structural, Debug)]
pub enum ReferenceKind {
    Pipe,
    Concept,
}

impl ReferenceKind {
    /// The root key that references of this kind resolve under.
    pub open spec fn spec_root_key(self) -> Seq<char> {
        match self {
            ReferenceKind::Pipe => "pipe"@,
            ReferenceKind::Concept => "concept"@,
        }
    }

    /// The root key that references of this kind resolve under.
    pub fn root_key(&self) -> (r: &'static str)
        ensures
            r@ == self.spec_root_key(),
    {
        match self {
            ReferenceKind::Pipe => "pipe",
            ReferenceKind::Concept => "concept",
        }
    }
}

// ---------------------------------------------------------------------------
// Qualifier normalization
// ---------------------------------------------------------------------------
/// The prefix of `s` before its first `[`, or all of `s` when it has none.
pub open spec fn spec_before_first_bracket(s: Seq<char>) -> Seq<char>
    decreases s.len(),
{
    if s.len() == 0 {
        s
    } else if s[0] == '[' {
        Seq::empty()
    } else {
        seq![s[0]] + spec_before_first_bracket(s.drop_first())
    }
}

/// The suffix of `s` after its last `.`, or all of `s` when it has none.
pub open spec fn spec_after_last_dot(s: Seq<char>) -> Seq<char>
    decreases s.len(),
{
    if s.len() == 0 {
        s
    } else if s[s.len() - 1] == '.' {
        Seq::empty()
    } else {
        spec_after_last_dot(s.drop_last()).push(s[s.len() - 1])
    }
}

/// A concept name with its qualifiers stripped: the multiplicity suffix
/// (everything from the first `[` on) is discarded, then the domain prefix
/// (everything up to and including the last `.`).
pub open spec fn spec_normalize(s: Seq<char>) -> Seq<char> {
    spec_after_last_dot(spec_before_first_bracket(s))
}

proof fn lemma_before_first_bracket_take(s: Seq<char>, i: int)
    requires
        0 <= i <= s.len(),
        forall|j: int| 0 <= j < i ==> s[j] != '[',
        i == s.len() || s[i] == '[',
    ensures
        spec_before_first_bracket(s) == s.take(i),
    decreases s.len(),
{
    if i == 0 {
        assert(s.take(0) =~= Seq::empty());
        if s.len() != 0 {
            assert(s[0] == '[');
        } else {
            assert(spec_before_first_bracket(s) == s);
            assert(s =~= s.take(0));
        }
    } else {
        assert(s[0] != '[');
        lemma_before_first_bracket_take(s.drop_first(), i - 1);
        assert(seq![s[0]] + s.drop_first().take(i - 1) =~= s.take(i));
    }
}

proof fn lemma_before_first_bracket_all(s: Seq<char>)
    requires
        forall|j: int| 0 <= j < s.len() ==> s[j] != '[',
    ensures
        spec_before_first_bracket(s) == s,
{
    lemma_before_first_bracket_take(s, s.len() as int);
    assert(s.take(s.len() as int) =~= s);
}

proof fn lemma_after_last_dot_skip(s: Seq<char>, i: int)
    requires
        0 <= i < s.len(),
        s[i] == '.',
        forall|j: int| i < j < s.len() ==> s[j] != '.',
    ensures
        spec_after_last_dot(s) == s.skip(i + 1),
    decreases s.len(),
{
    if i == s.len() - 1 {
        assert(s.skip(i + 1) =~= Seq::<char>::empty());
    } else {
        assert(s[s.len() - 1] != '.');
        assert(s.drop_last()[i] == '.');
        lemma_after_last_dot_skip(s.drop_last(), i);
        assert(s.drop_last().skip(i + 1).push(s[s.len() - 1]) =~= s.skip(i + 1));
    }
}

proof fn lemma_after_last_dot_all(s: Seq<char>)
    requires
        forall|j: int| 0 <= j < s.len() ==> s[j] != '.',
    ensures
        spec_after_last_dot(s) == s,
    decreases s.len(),
{
    if s.len() > 0 {
        lemma_after_last_dot_all(s.drop_last());
        assert(s.drop_last().push(s[s.len() - 1]) =~= s);
    }
}

proof fn lemma_before_first_bracket_free(s: Seq<char>)
    ensures
        forall|j: int|
            0 <= j < spec_before_first_bracket(s).len() ==> spec_before_first_bracket(s)[j] != '[',
    decreases s.len(),
{
    if s.len() != 0 && s[0] != '[' {
        lemma_before_first_bracket_free(s.drop_first());
        let r = spec_before_first_bracket(s);
        let rr = spec_before_first_bracket(s.drop_first());
        assert forall|j: int| 0 <= j < r.len() implies r[j] != '[' by {
            if j == 0 {
                assert(r[0] == s[0]);
            } else {
                assert(r[j] == rr[j - 1]);
            }
        }
    }
}

proof fn lemma_after_last_dot_free(s: Seq<char>)
    ensures
        forall|j: int|
            0 <= j < spec_after_last_dot(s).len() ==> spec_after_last_dot(s)[j] != '.',
    decreases s.len(),
{
    if s.len() != 0 && s[s.len() - 1] != '.' {
        lemma_after_last_dot_free(s.drop_last());
        let r = spec_after_last_dot(s);
        let rr = spec_after_last_dot(s.drop_last());
        assert forall|j: int| 0 <= j < r.len() implies r[j] != '.' by {
            if j < rr.len() {
                assert(r[j] == rr[j]);
            } else {
                assert(r[j] == s[s.len() - 1]);
            }
        }
    }
}

proof fn lemma_after_last_dot_keeps(s: Seq<char>, c: char)
    requires
        forall|j: int| 0 <= j < s.len() ==> s[j] != c,
    ensures
        forall|j: int| 0 <= j < spec_after_last_dot(s).len() ==> spec_after_last_dot(s)[j] != c,
    decreases s.len(),
{
    if s.len() != 0 && s[s.len() - 1] != '.' {
        lemma_after_last_dot_keeps(s.drop_last(), c);
        let r = spec_after_last_dot(s);
        let rr = spec_after_last_dot(s.drop_last());
        assert forall|j: int| 0 <= j < r.len() implies r[j] != c by {
            if j < rr.len() {
                assert(r[j] == rr[j]);
            } else {
                assert(r[j] == s[s.len() - 1]);
            }
        }
    }
}

/// Normalization leaves a name without qualifiers unchanged: a name that
/// contains neither `[` nor `.` is its own normal form.
pub proof fn lemma_normalize_no_qualifiers(s: Seq<char>)
    requires
        forall|j: int| 0 <= j < s.len() ==> s[j] != '[',
        forall|j: int| 0 <= j < s.len() ==> s[j] != '.',
    ensures
        spec_normalize(s) == s,
{
    lemma_before_first_bracket_all(s);
    lemma_after_last_dot_all(s);
}

/// Normalization is idempotent: normalizing an already normalized name
/// changes nothing, for every input.
pub proof fn lemma_normalize_idempotent(s: Seq<char>)
    ensures
        spec_normalize(spec_normalize(s)) == spec_normalize(s),
{
    let t = spec_before_first_bracket(s);
    lemma_before_first_bracket_free(s);
    lemma_after_last_dot_keeps(t, '[');
    lemma_after_last_dot_free(t);
    lemma_normalize_no_qualifiers(spec_normalize(s));
}

/// Strip the multiplicity suffix and the domain prefix from a concept
/// reference, leaving the bare concept name (possibly empty).
pub fn strip_concept_qualifiers(name: &str) -> (r: String)
    ensures
        r@ == spec_normalize(name@),
{
    let t: &str = match find_char(name, '[') {
        Some(i) => {
            proof {
                lemma_before_first_bracket_take(name@, i as int);
                assert(name@.take(i as int) =~= name@.subrange(0, i as int));
            }
            name.substring_char(0, i)
        },
        None => {
            proof {
                lemma_before_first_bracket_all(name@);
            }
            name
        },
    };
    let m = t.unicode_len();
    let r: &str = match rfind_char(t, '.') {
        Some(j) => {
            proof {
                lemma_after_last_dot_skip(t@, j as int);
                assert(t@.skip(j + 1) =~= t@.subrange(j + 1, m as int));
            }
            t.substring_char(j + 1, m)
        },
        None => {
            proof {
                lemma_after_last_dot_all(t@);
            }
            t
        },
    };
    r.to_owned()
}

// ---------------------------------------------------------------------------
// Classification
// ---------------------------------------------------------------------------
/// A classified reference at the cursor, before any resolution.
pub struct ClassifiedReference {
    pub kind: ReferenceKind,
    /// The reference name: the raw value for pipes, the normalized name for
    /// concepts.
    pub ref_name: String,
}

/// Keys whose string value names a pipe.
pub open spec fn spec_is_pipe_key(k: Seq<char>) -> bool {
    k == "pipe"@ || k == "main_pipe"@ || k == "default_pipe_code"@
}

/// Keys whose string value names a concept.
pub open spec fn spec_is_concept_key(k: Seq<char>) -> bool {
    k == "output"@ || k == "refines"@
}

/// The reference kind of a cursor token, from the dotted key of its
/// enclosing entry and, failing an exact key match, from the
/// `inputs = { ... }` ancestry.  A token without an enclosing keyed entry
/// has no kind.
pub open spec fn spec_classified_kind(p: crate::query::TokenInfo) -> Option<ReferenceKind> {
    match spec_entry_key(p.ancestors@) {
        Some(key) => if spec_is_pipe_key(key) {
            Some(ReferenceKind::Pipe)
        } else if spec_is_concept_key(key) {
            Some(ReferenceKind::Concept)
        } else if spec_inside_inputs_inline_table(p.ancestors@) {
            Some(ReferenceKind::Concept)
        } else {
            None
        },
        None => None,
    }
}

/// The classification of the cursor: the reference kind together with the
/// reference name.  The cursor must sit on a string token in a reference
/// field; the raw value must be non-empty; a concept name is normalized and
/// must still be non-empty, otherwise the classification is void even
/// though the key matched.
pub open spec fn spec_classify(q: CursorQuery) -> Option<(ReferenceKind, Seq<char>)> {
    match spec_string_position_info(q) {
        Some(p) => match spec_classified_kind(p) {
            Some(kind) => {
                let raw = spec_extract_string_value(p);
                if raw.len() == 0 {
                    None
                } else {
                    match kind {
                        ReferenceKind::Pipe => Some((ReferenceKind::Pipe, raw)),
                        ReferenceKind::Concept => {
                            let n = spec_normalize(raw);
                            if n.len() == 0 {
                                None
                            } else {
                                Some((ReferenceKind::Concept, n))
                            }
                        },
                    }
                }
            },
            None => None,
        },
        None => None,
    }
}

/// Classify the reference at the cursor without resolving it.
pub fn classify_reference(q: &CursorQuery) -> (r: Option<ClassifiedReference>)
    ensures
        match r {
            Some(c) => spec_classify(*q) == Some((c.kind, c.ref_name@)),
            None => spec_classify(*q) is None,
        },
{
    let p = match find_string_position_info(q) {
        Some(p) => p,
        None => {
            return None;
        },
    };
    let key = match entry_key(&p.ancestors) {
        Some(k) => k,
        None => {
            return None;
        },
    };
    let kind = if str_eq(key.as_str(), "pipe") || str_eq(key.as_str(), "main_pipe") || str_eq(
        key.as_str(),
        "default_pipe_code",
    ) {
        ReferenceKind::Pipe
    } else if str_eq(key.as_str(), "output") || str_eq(key.as_str(), "refines") {
        ReferenceKind::Concept
    } else if is_inside_inputs_inline_table(&p.ancestors) {
        ReferenceKind::Concept
    } else {
        return None;
    };
    let raw = extract_string_value(p);
    if raw.as_str().unicode_len() == 0 {
        return None;
    }
    match kind {
        ReferenceKind::Pipe => Some(ClassifiedReference { kind, ref_name: raw }),
        ReferenceKind::Concept => {
            let n = strip_concept_qualifiers(raw.as_str());
            if n.as_str().unicode_len() == 0 {
                None
            } else {
                Some(ClassifiedReference { kind, ref_name: n })
            }
        },
    }
}

// ---------------------------------------------------------------------------
// Resolution
// ---------------------------------------------------------------------------
/// A resolved reference: its kind, its (normalized) name, and the node of
/// the document tree it refers to.
pub struct ResolvedReference<'a> {
    pub kind: ReferenceKind,
    pub ref_name: String,
    pub target_node: &'a TreeNode,
}

/// The resolution of the cursor against the document tree: the classified
/// kind and name, together with the node found under the two-segment path
/// `[root key of the kind, name]`, when one exists there.
pub open spec fn spec_resolve(dom: TreeNode, q: CursorQuery) -> Option<
    (ReferenceKind, Seq<char>, TreeNode),
> {
    match spec_classify(q) {
        Some((kind, name)) => match spec_path2_get(dom, kind.spec_root_key(), name) {
            Some(target) => Some((kind, name, target)),
            None => None,
        },
        None => None,
    }
}

/// Resolve the reference at the cursor against the document tree.
///
/// On success the target node is reachable from the tree root via exactly
/// the two-segment path `[root key of the kind, normalized name]`.
pub fn resolve_reference<'a>(dom: &'a TreeNode, q: &CursorQuery) -> (r: Option<
    ResolvedReference<'a>,
>)
    ensures
        match r {
            Some(res) => spec_resolve(*dom, *q) == Some(
                (res.kind, res.ref_name@, *res.target_node),
            ),
            None => spec_resolve(*dom, *q) is None,
        },
{
    let classified = match classify_reference(q) {
        Some(c) => c,
        None => {
            return None;
        },
    };
    let root = match node_get(dom, classified.kind.root_key()) {
        Some(n) => n,
        None => {
            return None;
        },
    };
    let target = match node_get(root, classified.ref_name.as_str()) {
        Some(n) => n,
        None => {
            return None;
        },
    };
    Some(
        ResolvedReference {
            kind: classified.kind,
            ref_name: classified.ref_name,
            target_node: target,
        },
    )
}

// ---------------------------------------------------------------------------
// Model fields
// ---------------------------------------------------------------------------
/// The cursor sits on the value of a model field: a string token whose
/// enclosing entry key is literally `model` and which is not nested inside
/// an `inputs = { ... }` inline table (a user-defined input may also be
/// named `model`).
pub open spec fn spec_is_model_field(q: CursorQuery) -> bool {
    match spec_string_position_info(q) {
        Some(p) => spec_entry_key(p.ancestors@) == Some("model"@)
            && !spec_inside_inputs_inline_table(p.ancestors@),
        None => false,
    }
}

/// Whether the cursor sits on the value of a model field.
pub fn is_model_field(q: &CursorQuery) -> (r: bool)
    ensures
        r == spec_is_model_field(*q),
{
    let p = match find_string_position_info(q) {
        Some(p) => p,
        None => {
            return false;
        },
    };
    let key = match entry_key(&p.ancestors) {
        Some(k) => k,
        None => {
            return false;
        },
    };
    str_eq(key.as_str(), "model") && !is_inside_inputs_inline_table(&p.ancestors)
}

// ---------------------------------------------------------------------------
// Native concepts
// ---------------------------------------------------------------------------
/// A built-in concept definition: not declared in any document, served from
/// the registry below.  It yields hover content only; no source location
/// exists for it, so navigation never targets one.
pub struct NativeConcept {
    pub name: String,
    pub description: String,
    /// Ordered `(field name, field type label)` pairs; may be empty.
    pub fields: Vec<(String, String)>,
}

/// Ghost image of a native concept.
pub ghost struct NativeConceptView {
    pub name: Seq<char>,
    pub description: Seq<char>,
    pub fields: Seq<(Seq<char>, Seq<char>)>,
}

impl View for NativeConcept {
    type V = NativeConceptView;

    open spec fn view(&self) -> NativeConceptView {
        NativeConceptView {
            name: self.name@,
            description: self.description@,
            fields: self.fields@.map_values(|f: (String, String)| (f.0@, f.1@)),
        }
    }
}

/// The registry of built-in concepts, as a lookup by exact (already
/// normalized) concept name.
pub open spec fn spec_native_concept(name: Seq<char>) -> Option<NativeConceptView> {
    if name == "Anything"@ {
        Some(
            NativeConceptView {
                name: "Anything"@,
                description: "Accepts any content type."@,
                fields: Seq::empty(),
            },
        )
    } else if name == "Text"@ {
        Some(
            NativeConceptView {
                name: "Text"@,
                description: "Plain text content."@,
                fields: seq![("text"@, "str"@)],
            },
        )
    } else if name == "Image"@ {
        Some(
            NativeConceptView {
                name: "Image"@,
                description: "An image with URL and caption."@,
                fields: seq![("url"@, "str"@), ("caption"@, "str"@)],
            },
        )
    } else if name == "PDF"@ {
        Some(
            NativeConceptView {
                name: "PDF"@,
                description: "A PDF document file."@,
                fields: seq![("url"@, "str"@)],
            },
        )
    } else if name == "TextAndImages"@ {
        Some(
            NativeConceptView {
                name: "TextAndImages"@,
                description: "Text together with the images it refers to."@,
                fields: seq![("text"@, "str"@), ("images"@, "list[Image]"@)],
            },
        )
    } else if name == "Number"@ {
        Some(
            NativeConceptView {
                name: "Number"@,
                description: "A numeric value."@,
                fields: seq![("number"@, "number"@)],
            },
        )
    } else if name == "Document"@ {
        Some(
            NativeConceptView {
                name: "Document"@,
                description: "A document file to read content from."@,
                fields: seq![("url"@, "str"@), ("filename"@, "str"@)],
            },
        )
    } else if name == "Page"@ {
        Some(
            NativeConceptView {
                name: "Page"@,
                description: "A single page extracted from a document."@,
                fields: seq![("text_and_images"@, "TextAndImages"@), ("page_view"@, "Image"@)],
            },
        )
    } else {
        None
    }
}

/// Build a registry entry without fields; callers push the fields.
fn native(name: &str, description: &str) -> (r: NativeConcept)
    ensures
        r.name@ == name@,
        r.description@ == description@,
        r.fields@.len() == 0,
{
    NativeConcept { name: name.to_owned(), description: description.to_owned(), fields: Vec::new() }
}

/// Look up a built-in concept by its exact normalized name.
pub fn find_native_concept(name: &str) -> (r: Option<NativeConcept>)
    ensures
        match r {
            Some(c) => spec_native_concept(name@) == Some(c@),
            None => spec_native_concept(name@) is None,
        },
{
    if str_eq(name, "Anything") {
        let c = native("Anything", "Accepts any content type.");
        proof {
            assert(c@.fields =~= Seq::<(Seq<char>, Seq<char>)>::empty());
        }
        Some(c)
    } else if str_eq(name, "Text") {
        let mut c = native("Text", "Plain text content.");
        c.fields.push(("text".to_owned(), "str".to_owned()));
        proof {
            assert(c@.fields =~= seq![("text"@, "str"@)]);
        }
        Some(c)
    } else if str_eq(name, "Image") {
        let mut c = native("Image", "An image with URL and caption.");
        c.fields.push(("url".to_owned(), "str".to_owned()));
        c.fields.push(("caption".to_owned(), "str".to_owned()));
        proof {
            assert(c@.fields =~= seq![("url"@, "str"@), ("caption"@, "str"@)]);
        }
        Some(c)
    } else if str_eq(name, "PDF") {
        let mut c = native("PDF", "A PDF document file.");
        c.fields.push(("url".to_owned(), "str".to_owned()));
        proof {
            assert(c@.fields =~= seq![("url"@, "str"@)]);
        }
        Some(c)
    } else if str_eq(name, "TextAndImages") {
        let mut c = native("TextAndImages", "Text together with the images it refers to.");
        c.fields.push(("text".to_owned(), "str".to_owned()));
        c.fields.push(("images".to_owned(), "list[Image]".to_owned()));
        proof {
            assert(c@.fields =~= seq![("text"@, "str"@), ("images"@, "list[Image]"@)]);
        }
        Some(c)
    } else if str_eq(name, "Number") {
        let mut c = native("Number", "A numeric value.");
        c.fields.push(("number".to_owned(), "number".to_owned()));
        proof {
            assert(c@.fields =~= seq![("number"@, "number"@)]);
        }
        Some(c)
    } else if str_eq(name, "Document") {
        let mut c = native("Document", "A document file to read content from.");
        c.fields.push(("url".to_owned(), "str".to_owned()));
        c.fields.push(("filename".to_owned(), "str".to_owned()));
        proof {
            assert(c@.fields =~= seq![("url"@, "str"@), ("filename"@, "str"@)]);
        }
        Some(c)
    } else if str_eq(name, "Page") {
        let mut c = native("Page", "A single page extracted from a document.");
        c.fields.push(("text_and_images".to_owned(), "TextAndImages".to_owned()));
        c.fields.push(("page_view".to_owned(), "Image".to_owned()));
        proof {
            assert(c@.fields =~= seq![("text_and_images"@, "TextAndImages"@), ("page_view"@, "Image"@)]);
        }
        Some(c)
    } else {
        None
    }
}

// ---------------------------------------------------------------------------
// Laws
// ---------------------------------------------------------------------------
/// A classified reference whose two-segment path exists in the document
/// tree resolves to exactly the node under that path: resolution adds
/// nothing to classification but the lookup.
pub proof fn lemma_classified_reference_resolves(
    dom: TreeNode,
    q: CursorQuery,
    kind: ReferenceKind,
    name: Seq<char>,
    target: TreeNode,
)
    requires
        spec_classify(q) == Some((kind, name)),
        spec_path2_get(dom, kind.spec_root_key(), name) == Some(target),
    ensures
        spec_resolve(dom, q) == Some((kind, name, target)),
{
}

/// A classified reference whose two-segment path is absent from the
/// document tree resolves to nothing; in particular a domain-prefixed
/// concept reference is only ever looked up under its normalized bare
/// name, never against the external domain.
pub proof fn lemma_missing_target_never_resolves(
    dom: TreeNode,
    q: CursorQuery,
    kind: ReferenceKind,
    name: Seq<char>,
)
    requires
        spec_classify(q) == Some((kind, name)),
        spec_path2_get(dom, kind.spec_root_key(), name) is None,
    ensures
        spec_resolve(dom, q) is None,
{
}

/// A string under the key `description` never classifies as a reference,
/// as long as it does not sit inside an `inputs` inline table (inside one,
/// every string value is a concept reference whatever its key is).
pub proof fn lemma_description_key_never_classifies(q: CursorQuery)
    requires
        match spec_string_position_info(q) {
            Some(p) => spec_entry_key(p.ancestors@) == Some("description"@)
                && !spec_inside_inputs_inline_table(p.ancestors@),
            None => true,
        },
    ensures
        spec_classify(q) is None,
{
    reveal_strlit("description");
    reveal_strlit("pipe");
    reveal_strlit("main_pipe");
    reveal_strlit("default_pipe_code");
    reveal_strlit("output");
    reveal_strlit("refines");
    assert("description"@.len() == 11);
    assert("pipe"@.len() == 4);
    assert("main_pipe"@.len() == 9);
    assert("default_pipe_code"@.len() == 17);
    assert("output"@.len() == 6);
    assert("refines"@.len() == 7);
}

/// A string value nested in an `inputs = { ... }` inline table classifies
/// as a concept reference irrespective of its inner key, provided the
/// inner key is not itself one of the pipe reference keys; the reference
/// name is the normalized value, and the classification is void exactly
/// when the raw or the normalized name is empty.
pub proof fn lemma_inputs_value_classifies_as_concept(q: CursorQuery)
    requires
        match spec_string_position_info(q) {
            Some(p) => spec_inside_inputs_inline_table(p.ancestors@) && match spec_entry_key(
                p.ancestors@,
            ) {
                Some(k) => !spec_is_pipe_key(k),
                None => false,
            },
            None => false,
        },
    ensures
        ({
            let p = spec_string_position_info(q)->Some_0;
            let raw = spec_extract_string_value(p);
            let n = spec_normalize(raw);
            spec_classify(q) == if raw.len() == 0 || n.len() == 0 {
                None::<(ReferenceKind, Seq<char>)>
            } else {
                Some((ReferenceKind::Concept, n))
            }
        }),
{
}

/// A value inside an `inputs` inline table is never a model field, even
/// when its inner key is literally `model`.
pub proof fn lemma_inputs_value_never_model_field(q: CursorQuery)
    requires
        match spec_string_position_info(q) {
            Some(p) => spec_inside_inputs_inline_table(p.ancestors@),
            None => true,
        },
    ensures
        !spec_is_model_field(q),
{
}

} // verus!
