//! Environment wrapper and its configuration-file discovery policy.
//!
//! The wrapper searches for the tool's own configuration files
//! (`.pipelex/plxt.toml`, then `plxt.toml`, walking parent directories
//! upward) before falling back to the standard names the wrapped
//! environment knows (`.taplo.toml`, `taplo.toml`).  The discovery policy
//! itself is a pure function of the starting directory and the set of
//! existing files; the surrounding I/O (listing and reading files) belongs
//! to the host.

use vstd::prelude::*;

use crate::strutil::{rfind_char, spec_ends_with, str_ends_with, str_eq};

verus! {

/// An environment wrapper that puts the tool's own configuration files
/// before the wrapped environment's.
pub struct MthdsEnvironment<E> {
    inner: E,
}

impl<E> MthdsEnvironment<E> {
    /// The wrapped environment.
    pub closed spec fn spec_inner(self) -> E {
        self.inner
    }

    /// Wrap an environment.
    pub fn new(inner: E) -> (r: Self)
        ensures
            r.spec_inner() == inner,
    {
        MthdsEnvironment { inner }
    }

    /// The wrapped environment.
    pub fn inner(&self) -> (r: &E)
        ensures
            *r == self.spec_inner(),
    {
        &self.inner
    }

    /// Whether `path` names a configuration file: the tool's own names are
    /// recognized first, then the standard fallback names.
    pub fn is_config_file(&self, path: &str) -> (r: bool)
        ensures
            r == (spec_is_pipelex_config_path(path@) || spec_is_fallback_config_path(path@)),
    {
        str_ends_with(path, ".pipelex/plxt.toml") || str_ends_with(path, "plxt.toml")
            || str_ends_with(path, ".taplo.toml") || str_ends_with(path, "taplo.toml")
    }

    /// Search upward from `from` for a configuration file among `files`:
    /// every directory on the way to the root is tried for the tool's own
    /// names first; only when that whole walk fails are the standard names
    /// tried the same way.
    pub fn find_config_file(&self, from: &str, files: &Vec<String>) -> (r: Option<String>)
        ensures
            match r {
                Some(p) => spec_find_config_file(from@, files@.map_values(|s: String| s@)) == Some(
                    p@,
                ),
                None => spec_find_config_file(from@, files@.map_values(|s: String| s@)) is None,
            },
    {
        match find_walk(from, files, ".pipelex/plxt.toml", "plxt.toml") {
            Some(p) => Some(p),
            None => find_walk(from, files, ".taplo.toml", "taplo.toml"),
        }
    }
}

/// `path` names one of the tool's own configuration files.
pub open spec fn spec_is_pipelex_config_path(path: Seq<char>) -> bool {
    spec_ends_with(path, ".pipelex/plxt.toml"@) || spec_ends_with(path, "plxt.toml"@)
}

/// `path` names one of the standard fallback configuration files.
pub open spec fn spec_is_fallback_config_path(path: Seq<char>) -> bool {
    spec_ends_with(path, ".taplo.toml"@) || spec_ends_with(path, "taplo.toml"@)
}

/// The index of the last `/` in `p`.
pub open spec fn spec_rfind_slash(p: Seq<char>) -> Option<int>
    decreases p.len(),
{
    if p.len() == 0 {
        None
    } else if p[p.len() - 1] == '/' {
        Some(p.len() - 1)
    } else {
        spec_rfind_slash(p.drop_last())
    }
}

/// The parent directory of `p`, textually: nothing for the root `/` and
/// for an empty path; otherwise the prefix before the last `/`, with `/x`
/// giving `/` and a bare name giving the empty path.
pub open spec fn spec_parent_dir(p: Seq<char>) -> Option<Seq<char>> {
    if p.len() == 0 || p == seq!['/'] {
        None
    } else {
        match spec_rfind_slash(p) {
            None => Some(Seq::empty()),
            Some(i) => if i == 0 {
                Some(seq!['/'])
            } else {
                Some(p.take(i))
            },
        }
    }
}

/// `name` appended to directory `dir`, with a `/` between them when
/// needed.
pub open spec fn spec_join_path(dir: Seq<char>, name: Seq<char>) -> Seq<char> {
    if dir.len() == 0 {
        name
    } else if dir[dir.len() - 1] == '/' {
        dir + name
    } else {
        dir + "/"@ + name
    }
}

proof fn lemma_rfind_slash_bounds(p: Seq<char>)
    ensures
        match spec_rfind_slash(p) {
            Some(i) => 0 <= i < p.len() && p[i] == '/',
            None => true,
        },
    decreases p.len(),
{
    if p.len() != 0 && p[p.len() - 1] != '/' {
        lemma_rfind_slash_bounds(p.drop_last());
    }
}

/// The walk from `dir` toward the root, trying `n1` then `n2` in each
/// directory, over the set of existing `files`.
pub open spec fn spec_find_walk(
    dir: Seq<char>,
    files: Seq<Seq<char>>,
    n1: Seq<char>,
    n2: Seq<char>,
) -> Option<Seq<char>>
    decreases dir.len(),
    via spec_find_walk_decreases
{
    if files.contains(spec_join_path(dir, n1)) {
        Some(spec_join_path(dir, n1))
    } else if files.contains(spec_join_path(dir, n2)) {
        Some(spec_join_path(dir, n2))
    } else {
        match spec_parent_dir(dir) {
            Some(parent) => spec_find_walk(parent, files, n1, n2),
            None => None,
        }
    }
}

#[via_fn]
proof fn spec_find_walk_decreases(dir: Seq<char>, files: Seq<Seq<char>>, n1: Seq<char>, n2: Seq<char>) {
    lemma_parent_dir_shorter(dir);
}

/// A parent directory is strictly shorter than the directory itself.
proof fn lemma_parent_dir_shorter(d: Seq<char>)
    ensures
        match spec_parent_dir(d) {
            Some(p) => p.len() < d.len(),
            None => true,
        },
{
    lemma_rfind_slash_bounds(d);
    if d.len() == 1 && d[0] == '/' {
        assert(d =~= seq!['/']);
    }
}

/// The full discovery: the tool's own names over the whole walk first,
/// then the standard fallback names.
pub open spec fn spec_find_config_file(from: Seq<char>, files: Seq<Seq<char>>) -> Option<
    Seq<char>,
> {
    match spec_find_walk(from, files, ".pipelex/plxt.toml"@, "plxt.toml"@) {
        Some(p) => Some(p),
        None => spec_find_walk(from, files, ".taplo.toml"@, "taplo.toml"@),
    }
}

proof fn lemma_rfind_slash_at(p: Seq<char>, i: int)
    requires
        0 <= i < p.len(),
        p[i] == '/',
        forall|j: int| i < j < p.len() ==> p[j] != '/',
    ensures
        spec_rfind_slash(p) == Some(i),
    decreases p.len(),
{
    if i < p.len() - 1 {
        assert(p[p.len() - 1] != '/');
        assert(p.drop_last()[i] == '/');
        lemma_rfind_slash_at(p.drop_last(), i);
    }
}

proof fn lemma_rfind_slash_none(p: Seq<char>)
    requires
        forall|j: int| 0 <= j < p.len() ==> p[j] != '/',
    ensures
        spec_rfind_slash(p) is None,
    decreases p.len(),
{
    if p.len() != 0 {
        lemma_rfind_slash_none(p.drop_last());
    }
}

/// The parent directory of `dir`, textually.
fn parent_dir(dir: &str) -> (r: Option<String>)
    ensures
        match r {
            Some(p) => spec_parent_dir(dir@) == Some(p@),
            None => spec_parent_dir(dir@) is None,
        },
{
    let n = dir.unicode_len();
    if n == 0 {
        return None;
    }
    if n == 1 && dir.get_char(0) == '/' {
        proof {
            assert(dir@ =~= seq!['/']);
        }
        return None;
    }
    proof {
        assert(dir@ != seq!['/']) by {
            if dir@ == seq!['/'] {
                assert(dir@.len() == 1);
            }
        }
    }
    match rfind_char(dir, '/') {
        None => {
            proof {
                lemma_rfind_slash_none(dir@);
            }
            Some(String::new())
        },
        Some(i) => {
            proof {
                lemma_rfind_slash_at(dir@, i as int);
            }
            if i == 0 {
                let root = "/".to_owned();
                proof {
                    reveal_strlit("/");
                    assert(root@ =~= seq!['/']);
                }
                Some(root)
            } else {
                proof {
                    assert(dir@.subrange(0, i as int) =~= dir@.take(i as int));
                }
                Some(dir.substring_char(0, i).to_owned())
            }
        },
    }
}

/// Join a directory and a file name with a `/` when needed.
fn join_path(dir: &str, name: &str) -> (r: String)
    ensures
        r@ == spec_join_path(dir@, name@),
{
    let n = dir.unicode_len();
    if n == 0 {
        name.to_owned()
    } else if dir.get_char(n - 1) == '/' {
        let mut out = dir.to_owned();
        out.append(name);
        out
    } else {
        let mut out = dir.to_owned();
        out.append("/");
        out.append(name);
        out
    }
}

/// Whether `p` occurs among `files`, by contents.
fn contains_str(files: &Vec<String>, p: &str) -> (r: bool)
    ensures
        r == files@.map_values(|s: String| s@).contains(p@),
{
    let ghost views: Seq<Seq<char>> = files@.map_values(|s: String| s@);
    let n = files.len();
    for i in 0..n
        invariant
            n == files@.len(),
            views == files@.map_values(|s: String| s@),
            forall|j: int| 0 <= j < i ==> views[j] != p@,
    {
        if str_eq(files[i].as_str(), p) {
            proof {
                assert(views[i as int] == p@);
            }
            return true;
        }
    }
    proof {
        assert(forall|j: int| 0 <= j < views.len() ==> views[j] != p@);
    }
    false
}

/// Walk from `from` toward the root, trying `n1` then `n2` in each
/// directory.
fn find_walk(from: &str, files: &Vec<String>, n1: &str, n2: &str) -> (r: Option<String>)
    ensures
        match r {
            Some(p) => spec_find_walk(from@, files@.map_values(|s: String| s@), n1@, n2@) == Some(
                p@,
            ),
            None => spec_find_walk(from@, files@.map_values(|s: String| s@), n1@, n2@) is None,
        },
{
    let ghost views: Seq<Seq<char>> = files@.map_values(|s: String| s@);
    let mut dir: String = from.to_owned();
    loop
        invariant
            views == files@.map_values(|s: String| s@),
            spec_find_walk(from@, views, n1@, n2@) == spec_find_walk(dir@, views, n1@, n2@),
        decreases dir@.len(),
    {
        let c1 = join_path(dir.as_str(), n1);
        if contains_str(files, c1.as_str()) {
            return Some(c1);
        }
        let c2 = join_path(dir.as_str(), n2);
        if contains_str(files, c2.as_str()) {
            return Some(c2);
        }
        match parent_dir(dir.as_str()) {
            Some(p) => {
                proof {
                    lemma_parent_dir_shorter(dir@);
                }
                dir = p;
            },
            None => {
                return None;
            },
        }
    }
}

} // verus!
