use vstd::prelude::*;
use vstd::string::StrSliceExecFns;

verus! {

/// Wildcard pattern matching as the model engine's pattern predicate
/// defines it: a percent sign matches any run of characters, an underscore
/// matches exactly one character, and any other pattern character matches
/// itself. The pattern is taken verbatim; there is no escape character.
pub open spec fn like_match(p: Seq<char>, t: Seq<char>) -> bool
    decreases p.len(), t.len(),
{
    if p.len() == 0 {
        t.len() == 0
    } else if p[0] == '%' {
        like_match(p.skip(1), t) || (t.len() > 0 && like_match(p, t.skip(1)))
    } else if t.len() == 0 {
        false
    } else {
        (p[0] == '_' || p[0] == t[0]) && like_match(p.skip(1), t.skip(1))
    }
}

/// The characters of a string, in order.
pub fn chars_of(s: &str) -> (r: Vec<char>)
    ensures
        r@ == s@,
{
    let n = s.unicode_len();
    let mut v: Vec<char> = Vec::new();
    let mut i: usize = 0;
    while i < n
        invariant
            i <= n,
            n == s@.len(),
            v@ == s@.take(i as int),
        decreases n - i,
    {
        v.push(s.get_char(i));
        proof {
            assert(v@ =~= s@.take(i as int + 1));
        }
        i = i + 1;
    }
    proof {
        assert(s@.take(n as int) =~= s@);
    }
    v
}

fn like_match_from(p: &Vec<char>, t: &Vec<char>, i: usize, j: usize) -> (r: bool)
    requires
        i <= p@.len(),
        j <= t@.len(),
    ensures
        r == like_match(p@.skip(i as int), t@.skip(j as int)),
    decreases p@.len() - i, t@.len() - j,
{
    proof {
        if (i as int) < p@.len() {
            assert(p@.skip(i as int).skip(1) =~= p@.skip(i as int + 1));
        }
        if (j as int) < t@.len() {
            assert(t@.skip(j as int).skip(1) =~= t@.skip(j as int + 1));
        }
    }
    if i == p.len() {
        j == t.len()
    } else if p[i] == '%' {
        if like_match_from(p, t, i + 1, j) {
            true
        } else if j < t.len() {
            like_match_from(p, t, i, j + 1)
        } else {
            false
        }
    } else if j == t.len() {
        false
    } else if p[i] == '_' || p[i] == t[j] {
        like_match_from(p, t, i + 1, j + 1)
    } else {
        false
    }
}

/// Decides whether the text matches the wildcard pattern.
pub fn like_matches(pattern: &str, text: &str) -> (r: bool)
    ensures
        r == like_match(pattern@, text@),
{
    let p = chars_of(pattern);
    let t = chars_of(text);
    proof {
        assert(p@.skip(0) =~= pattern@);
        assert(t@.skip(0) =~= text@);
    }
    like_match_from(&p, &t, 0, 0)
}

} // verus!
