//! Small verified string helpers used throughout the crate.

use vstd::prelude::*;

verus! {

/// `s` ends with `suffix`.
pub open spec fn spec_ends_with(s: Seq<char>, suffix: Seq<char>) -> bool {
    suffix.len() <= s.len() && s.subrange(s.len() - suffix.len(), s.len() as int) == suffix
}

/// `s` starts with `prefix`.
pub open spec fn spec_starts_with(s: Seq<char>, prefix: Seq<char>) -> bool {
    prefix.len() <= s.len() && s.subrange(0, prefix.len() as int) == prefix
}

/// The elements of `strs`, joined with `sep` between consecutive elements.
pub open spec fn spec_join(strs: Seq<Seq<char>>, sep: Seq<char>) -> Seq<char>
    decreases strs.len(),
{
    if strs.len() == 0 {
        Seq::empty()
    } else if strs.len() == 1 {
        strs[0]
    } else {
        strs[0] + sep + spec_join(strs.drop_first(), sep)
    }
}

/// Appending one more element to a join extends it by a separator and the
/// element (or is just the element, for an empty sequence).
pub proof fn lemma_join_push(strs: Seq<Seq<char>>, sep: Seq<char>, last: Seq<char>)
    ensures
        spec_join(strs.push(last), sep) == if strs.len() == 0 {
            last
        } else {
            spec_join(strs, sep) + sep + last
        },
    decreases strs.len(),
{
    if strs.len() == 0 {
        assert(strs.push(last) =~= seq![last]);
    } else {
        assert(strs.push(last).drop_first() =~= strs.drop_first().push(last));
        lemma_join_push(strs.drop_first(), sep, last);
        if strs.len() == 1 {
            assert(strs.push(last)[0] == strs[0]);
            assert(spec_join(strs.push(last), sep) == strs[0] + sep + last);
            assert(spec_join(strs, sep) == strs[0]);
        } else {
            assert(strs.push(last)[0] == strs[0]);
            assert(spec_join(strs.drop_first(), sep) + sep + last == (spec_join(
                strs.drop_first(),
                sep,
            ) + sep) + last);
            assert(strs[0] + sep + (spec_join(strs.drop_first(), sep) + sep + last) =~= (strs[0]
                + sep + spec_join(strs.drop_first(), sep)) + sep + last);
        }
    }
}

/// Find the first occurrence of `c` in `s`.
pub fn find_char(s: &str, c: char) -> (r: Option<usize>)
    ensures
        match r {
            Some(i) => i < s@.len() && s@[i as int] == c && (forall|j: int|
                0 <= j < i ==> s@[j] != c),
            None => forall|j: int| 0 <= j < s@.len() ==> s@[j] != c,
        },
{
    let n = s.unicode_len();
    let mut i: usize = 0;
    while i < n
        invariant
            i <= n,
            n == s@.len(),
            forall|j: int| 0 <= j < i ==> s@[j] != c,
        decreases n - i,
    {
        if s.get_char(i) == c {
            return Some(i);
        }
        i += 1;
    }
    None
}

/// Find the last occurrence of `c` in `s`.
pub fn rfind_char(s: &str, c: char) -> (r: Option<usize>)
    ensures
        match r {
            Some(i) => i < s@.len() && s@[i as int] == c && (forall|j: int|
                i < j < s@.len() ==> s@[j] != c),
            None => forall|j: int| 0 <= j < s@.len() ==> s@[j] != c,
        },
{
    let n = s.unicode_len();
    let mut i: usize = n;
    while i > 0
        invariant
            i <= n,
            n == s@.len(),
            forall|j: int| i <= j < n ==> s@[j] != c,
        decreases i,
    {
        i -= 1;
        if s.get_char(i) == c {
            return Some(i);
        }
    }
    None
}

/// Equality of two string slices, by contents.
pub fn str_eq(a: &str, b: &str) -> (r: bool)
    ensures
        r == (a@ == b@),
{
    let sa: String = a.to_owned();
    let sb: String = b.to_owned();
    sa == sb
}

/// Whether `s` ends with `suffix`, by contents.
pub fn str_ends_with(s: &str, suffix: &str) -> (r: bool)
    ensures
        r == spec_ends_with(s@, suffix@),
{
    let n = s.unicode_len();
    let m = suffix.unicode_len();
    if m > n {
        return false;
    }
    let tail = s.substring_char(n - m, n);
    str_eq(tail, suffix)
}

/// Whether `s` starts with `prefix`, by contents.
pub fn str_starts_with(s: &str, prefix: &str) -> (r: bool)
    ensures
        r == spec_starts_with(s@, prefix@),
{
    let n = s.unicode_len();
    let m = prefix.unicode_len();
    if m > n {
        return false;
    }
    let head = s.substring_char(0, m);
    str_eq(head, prefix)
}

/// Join the given strings with `sep` between consecutive elements.
pub fn join_strings(strs: &Vec<String>, sep: &str) -> (r: String)
    ensures
        r@ == spec_join(strs@.map_values(|s: String| s@), sep@),
{
    let ghost views: Seq<Seq<char>> = strs@.map_values(|s: String| s@);
    let mut out = String::new();
    let n = strs.len();
    for i in 0..n
        invariant
            n == strs@.len(),
            views == strs@.map_values(|s: String| s@),
            out@ == spec_join(views.take(i as int), sep@),
    {
        if i > 0 {
            out.append(sep);
        }
        out.append(strs[i].as_str());
        proof {
            assert(views.take(i as int).push(views[i as int]) =~= views.take(i + 1));
            lemma_join_push(views.take(i as int), sep@, views[i as int]);
        }
    }
    proof {
        assert(views.take(n as int) =~= views);
    }
    out
}

} // verus!
