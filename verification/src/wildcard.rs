//! Matching a model identifier against a pattern with `*` and `?`.

use crate::text::chars_of;
use vstd::prelude::*;

verus! {

/// Whether `value` as a whole is matched by `pattern`, in which `*` stands for any run of
/// characters (the empty one too) and `?` for exactly one character.
pub open spec fn wildcard_matches(pattern: Seq<char>, value: Seq<char>) -> bool
    decreases pattern.len(), value.len(),
{
    if pattern.len() == 0 {
        value.len() == 0
    } else if pattern[0] == '*' {
        wildcard_matches(pattern.skip(1), value) || (value.len() > 0 && wildcard_matches(
            pattern,
            value.skip(1),
        ))
    } else if value.len() > 0 && (pattern[0] == '?' || pattern[0] == value[0]) {
        wildcard_matches(pattern.skip(1), value.skip(1))
    } else {
        false
    }
}

/// No `*` stands in `pattern` from index `from` up to, not including, index `to`.
pub open spec fn star_free(pattern: Seq<char>, from: int, to: int) -> bool {
    forall|i: int| from <= i < to ==> pattern[i] != '*'
}

proof fn lemma_skip_step<A>(s: Seq<A>, i: int)
    requires
        0 <= i < s.len(),
    ensures
        s.skip(i).len() > 0,
        s.skip(i)[0] == s[i],
        s.skip(i).skip(1) == s.skip(i + 1),
{
    assert(s.skip(i).skip(1) =~= s.skip(i + 1));
}

/// A pattern that begins with `*` and matches a suffix of the value matches every longer
/// suffix too: the star takes up the difference.
proof fn lemma_star_absorbs(p: Seq<char>, v: Seq<char>, i: int, j: int)
    requires
        p.len() > 0,
        p[0] == '*',
        0 <= i <= j <= v.len(),
        wildcard_matches(p, v.skip(j)),
    ensures
        wildcard_matches(p, v.skip(i)),
    decreases j - i,
{
    if i < j {
        lemma_skip_step(v, j - 1);
        assert(wildcard_matches(p, v.skip(j - 1)));
        lemma_star_absorbs(p, v, i, j - 1);
    }
}

/// A stretch of the pattern without `*` consumes exactly as many characters of the value as
/// it is long.
proof fn lemma_segment(p: Seq<char>, v: Seq<char>, a: int, b: int, k: int)
    requires
        0 <= a <= b <= p.len(),
        0 <= k <= v.len(),
        star_free(p, a, b),
        wildcard_matches(p.skip(a), v.skip(k)),
    ensures
        k + (b - a) <= v.len(),
        wildcard_matches(p.skip(b), v.skip(k + (b - a))),
    decreases b - a,
{
    if a < b {
        lemma_skip_step(p, a);
        assert(p[a] != '*');
        assert(v.skip(k).len() > 0);
        lemma_skip_step(v, k);
        lemma_segment(p, v, a + 1, b, k + 1);
    }
}

/// When a later `*` is reached at `b`, the choices left open at the earlier `*` at `s` are no
/// longer needed: if any of them leads to a match, so does the earliest one.
proof fn lemma_next_star(p: Seq<char>, v: Seq<char>, s: int, b: int, k: int)
    requires
        0 <= s < b < p.len(),
        p[s] == '*',
        p[b] == '*',
        star_free(p, s + 1, b),
        0 <= k <= v.len(),
        wildcard_matches(p.skip(s), v.skip(k)),
    ensures
        k + (b - s - 1) <= v.len(),
        wildcard_matches(p.skip(b), v.skip(k + (b - s - 1))),
    decreases v.len() - k,
{
    lemma_skip_step(p, s);
    if wildcard_matches(p.skip(s + 1), v.skip(k)) {
        lemma_segment(p, v, s + 1, b, k);
    } else {
        lemma_skip_step(v, k);
        lemma_next_star(p, v, s, b, k + 1);
        lemma_skip_step(p, b);
        lemma_star_absorbs(p.skip(b), v, k + (b - s - 1), k + 1 + (b - s - 1));
    }
}

/// When the current attempt after the `*` at `s` has used up the value, no later attempt can
/// succeed.
proof fn lemma_last_attempt(p: Seq<char>, v: Seq<char>, s: int, b: int, m: int, k: int)
    requires
        0 <= s < b <= p.len(),
        p[s] == '*',
        star_free(p, s + 1, b),
        0 <= m <= k <= v.len(),
        m + (b - s - 1) == v.len(),
        wildcard_matches(p.skip(s), v.skip(k)),
    ensures
        k == m,
        wildcard_matches(p.skip(b), v.skip(v.len() as int)),
    decreases v.len() - k,
{
    lemma_skip_step(p, s);
    if wildcard_matches(p.skip(s + 1), v.skip(k)) {
        lemma_segment(p, v, s + 1, b, k);
    } else {
        lemma_skip_step(v, k);
        lemma_last_attempt(p, v, s, b, m, k + 1);
    }
}

/// `*` alone matches every value, the empty one too.
pub proof fn lemma_star_matches_any_run(value: Seq<char>)
    ensures
        wildcard_matches(seq!['*'], value),
    decreases value.len(),
{
    let star = seq!['*'];
    assert(star.skip(1) =~= Seq::<char>::empty());
    if value.len() > 0 {
        lemma_star_matches_any_run(value.skip(1));
    } else {
        assert(wildcard_matches(Seq::<char>::empty(), value));
    }
}

/// `?` alone matches the values of exactly one character, and no others.
pub proof fn lemma_question_matches_one_char(value: Seq<char>)
    ensures
        wildcard_matches(seq!['?'], value) <==> value.len() == 1,
{
    let q = seq!['?'];
    assert(q.skip(1) =~= Seq::<char>::empty());
    if value.len() > 0 {
        assert(wildcard_matches(Seq::<char>::empty(), value.skip(1)) == (value.skip(1).len()
            == 0));
    }
}

/// A pattern without wildcards matches itself and nothing else: matching is anchored at both
/// ends of the value.
pub proof fn lemma_literal_matches_itself_only(pattern: Seq<char>, value: Seq<char>)
    requires
        forall|i: int| 0 <= i < pattern.len() ==> pattern[i] != '*' && pattern[i] != '?',
    ensures
        wildcard_matches(pattern, value) <==> pattern == value,
    decreases pattern.len(),
{
    if pattern.len() == 0 {
        assert(value.len() == 0 ==> pattern =~= value);
    } else if value.len() > 0 {
        lemma_literal_matches_itself_only(pattern.skip(1), value.skip(1));
        if pattern[0] == value[0] && pattern.skip(1) == value.skip(1) {
            assert(pattern =~= seq![pattern[0]] + pattern.skip(1));
            assert(value =~= seq![value[0]] + value.skip(1));
        }
    }
}

/// Matching goes piece by piece: where two patterns match two values, the patterns joined
/// match the values joined. With the two laws above this gives the meaning of a wildcard
/// anywhere inside a pattern.
pub proof fn lemma_match_concat(p1: Seq<char>, v1: Seq<char>, p2: Seq<char>, v2: Seq<char>)
    requires
        wildcard_matches(p1, v1),
        wildcard_matches(p2, v2),
    ensures
        wildcard_matches(p1 + p2, v1 + v2),
    decreases p1.len(), v1.len(),
{
    if p1.len() == 0 {
        assert(p1 + p2 =~= p2);
        assert(v1 + v2 =~= v2);
    } else {
        assert((p1 + p2).skip(1) =~= p1.skip(1) + p2);
        if p1[0] == '*' {
            if wildcard_matches(p1.skip(1), v1) {
                lemma_match_concat(p1.skip(1), v1, p2, v2);
            } else {
                assert((v1 + v2).skip(1) =~= v1.skip(1) + v2);
                lemma_match_concat(p1, v1.skip(1), p2, v2);
            }
        } else {
            assert((v1 + v2).skip(1) =~= v1.skip(1) + v2);
            lemma_match_concat(p1.skip(1), v1.skip(1), p2, v2);
        }
    }
}

/// Matches `value` against `pattern` on characters already split out.
pub fn wildcard_match_chars(pattern: &Vec<char>, value: &Vec<char>) -> (r: bool)
    ensures
        r == wildcard_matches(pattern@, value@),
{
    let ghost p = pattern@;
    let ghost v = value@;
    let plen: usize = pattern.len();
    let vlen: usize = value.len();
    let mut p_idx: usize = 0;
    let mut v_idx: usize = 0;
    let mut star_idx: Option<usize> = None;
    let mut match_idx: usize = 0;

    assert(p.skip(0) =~= p && v.skip(0) =~= v);
    while v_idx < vlen
        invariant
            p == pattern@,
            v == value@,
            plen == p.len(),
            vlen == v.len(),
            p_idx <= plen,
            match_idx <= v_idx <= vlen,
            match star_idx {
                None => wildcard_matches(p, v) == wildcard_matches(
                    p.skip(p_idx as int),
                    v.skip(v_idx as int),
                ),
                Some(s) => {
                    &&& s < p_idx
                    &&& p[s as int] == '*'
                    &&& star_free(p, s + 1, p_idx as int)
                    &&& v_idx - match_idx == p_idx - (s + 1)
                    &&& wildcard_matches(p, v) == wildcard_matches(
                        p.skip(s as int),
                        v.skip(match_idx as int),
                    )
                    &&& wildcard_matches(p.skip(s + 1), v.skip(match_idx as int))
                        == wildcard_matches(p.skip(p_idx as int), v.skip(v_idx as int))
                },
            },
        decreases vlen - match_idx, (vlen - v_idx) + (plen - p_idx),
    {
        proof {
            lemma_skip_step(v, v_idx as int);
            if p_idx < plen {
                lemma_skip_step(p, p_idx as int);
            }
        }
        if p_idx < plen && pattern[p_idx] == '*' {
            proof {
                if let Some(s) = star_idx {
                    lemma_skip_step(p, s as int);
                    if wildcard_matches(p.skip(s as int), v.skip(match_idx as int)) {
                        lemma_next_star(p, v, s as int, p_idx as int, match_idx as int);
                    }
                }
            }
            star_idx = Some(p_idx);
            match_idx = v_idx;
            p_idx += 1;
        } else if p_idx < plen && (pattern[p_idx] == '?' || pattern[p_idx] == value[v_idx]) {
            p_idx += 1;
            v_idx += 1;
        } else if let Some(si) = star_idx {
            proof {
                lemma_skip_step(p, si as int);
                lemma_skip_step(v, match_idx as int);
                assert(!wildcard_matches(p.skip(p_idx as int), v.skip(v_idx as int)));
            }
            p_idx = si + 1;
            match_idx += 1;
            v_idx = match_idx;
        } else {
            assert(!wildcard_matches(p.skip(p_idx as int), v.skip(v_idx as int)));
            return false;
        }
    }

    let ghost p_end = p_idx;
    while p_idx < plen && pattern[p_idx] == '*'
        invariant
            p == pattern@,
            plen == p.len(),
            p_end <= p_idx <= plen,
            wildcard_matches(p.skip(p_end as int), Seq::<char>::empty()) == wildcard_matches(
                p.skip(p_idx as int),
                Seq::<char>::empty(),
            ),
        decreases plen - p_idx,
    {
        proof {
            lemma_skip_step(p, p_idx as int);
        }
        p_idx += 1;
    }

    proof {
        assert(v.skip(vlen as int) =~= Seq::<char>::empty());
        if p_idx < plen {
            lemma_skip_step(p, p_idx as int);
        }
        assert(wildcard_matches(p.skip(p_idx as int), Seq::<char>::empty()) == (p_idx == plen));
        if let Some(s) = star_idx {
            lemma_skip_step(p, s as int);
            if wildcard_matches(p.skip(s as int), v.skip(match_idx as int)) {
                lemma_last_attempt(
                    p,
                    v,
                    s as int,
                    p_end as int,
                    match_idx as int,
                    match_idx as int,
                );
            }
        }
    }
    p_idx == plen
}

/// Whether `value` as a whole is matched by `pattern` (`*`: any run, `?`: one character).
pub fn wildcard_match(pattern: &str, value: &str) -> (r: bool)
    ensures
        r == wildcard_matches(pattern@, value@),
{
    let pattern_chars = chars_of(pattern);
    let value_chars = chars_of(value);
    wildcard_match_chars(&pattern_chars, &value_chars)
}

} // verus!
