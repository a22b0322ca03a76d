//! Case-insensitive fuzzy subsequence matching for the command palette.

use vstd::prelude::*;
use crate::text::{chars_of, lowercase, spec_lowercase};

verus! {

/// `w` places the characters of `p`, in order, at increasing positions of `t`.
pub open spec fn spec_embeds(p: Seq<char>, t: Seq<char>, w: Seq<int>) -> bool {
    &&& w.len() == p.len()
    &&& forall|k: int| 0 <= k < w.len() ==> 0 <= #[trigger] w[k] < t.len() && t[w[k]] == p[k]
    &&& forall|a: int, b: int| 0 <= a < b < w.len() ==> #[trigger] w[a] < #[trigger] w[b]
}

/// Every character of `p` appears in `t` in the same order.
pub open spec fn spec_is_subsequence(p: Seq<char>, t: Seq<char>) -> bool {
    exists|w: Seq<int>| spec_embeds(p, t, w)
}

/// `pattern` matches `text` when, ignoring case, its characters appear in
/// `text` in order.
pub open spec fn spec_fuzzy_match(pattern: Seq<char>, text: Seq<char>) -> bool {
    spec_is_subsequence(spec_lowercase(pattern), spec_lowercase(text))
}

/// An embedding of `p` in `t` restricted to a prefix of `p`.
proof fn lemma_embeds_prefix(p: Seq<char>, t: Seq<char>, w: Seq<int>, j: int)
    requires
        spec_embeds(p, t, w),
        0 <= j <= p.len(),
    ensures
        spec_embeds(p.subrange(0, j), t, w.subrange(0, j)),
{
}

/// The greedy scan is complete: if `p[..j+1]` does not embed in `t[..i]` and
/// `t[i]` does not extend `p[..j]`, then `p[..j+1]` does not embed in `t[..i+1]`.
proof fn lemma_greedy_step_miss(p: Seq<char>, t: Seq<char>, i: int, j: int)
    requires
        0 <= j < p.len(),
        0 <= i < t.len(),
        t[i] != p[j],
        !spec_is_subsequence(p.subrange(0, j + 1), t.subrange(0, i)),
    ensures
        !spec_is_subsequence(p.subrange(0, j + 1), t.subrange(0, i + 1)),
{
    if spec_is_subsequence(p.subrange(0, j + 1), t.subrange(0, i + 1)) {
        let w = choose|w: Seq<int>| #[trigger] spec_embeds(p.subrange(0, j + 1), t.subrange(0, i + 1), w);
        if w[j] == i {
            assert(t.subrange(0, i + 1)[w[j]] == p.subrange(0, j + 1)[j]);
        } else {
            assert forall|k: int| 0 <= k < w.len() implies w[k] < i by {
                if k < j {
                    assert(w[k] < w[j]);
                }
            }
            assert(spec_embeds(p.subrange(0, j + 1), t.subrange(0, i), w));
        }
    }
}

/// After a match of `p[j]` at `t[i]`, `p[..j+2]` still does not embed in `t[..i+1]`.
proof fn lemma_greedy_step_hit(p: Seq<char>, t: Seq<char>, i: int, j: int)
    requires
        0 <= j + 1 < p.len(),
        0 <= i < t.len(),
        !spec_is_subsequence(p.subrange(0, j + 1), t.subrange(0, i)),
    ensures
        !spec_is_subsequence(p.subrange(0, j + 2), t.subrange(0, i + 1)),
{
    if spec_is_subsequence(p.subrange(0, j + 2), t.subrange(0, i + 1)) {
        let w = choose|w: Seq<int>| #[trigger] spec_embeds(p.subrange(0, j + 2), t.subrange(0, i + 1), w);
        let v = w.subrange(0, j + 1);
        assert forall|k: int| 0 <= k < v.len() implies v[k] < i by {
            assert(w[k] < w[j + 1]);
        }
        assert(spec_embeds(p.subrange(0, j + 1), t.subrange(0, i), v));
    }
}

/// Whether `pattern`'s characters appear in order in `text`.
fn is_subsequence(p: &Vec<char>, t: &Vec<char>) -> (r: bool)
    ensures
        r == spec_is_subsequence(p@, t@),
{
    if p.len() == 0 {
        proof {
            assert(spec_embeds(p@, t@, Seq::<int>::empty()));
        }
        return true;
    }
    let mut j: usize = 0;
    let mut i: usize = 0;
    let ghost mut w: Seq<int> = Seq::empty();
    proof {
        if spec_is_subsequence(p@.subrange(0, 1), t@.subrange(0, 0)) {
            let v = choose|v: Seq<int>| #[trigger] spec_embeds(p@.subrange(0, 1), t@.subrange(0, 0), v);
            assert(v.len() == 1);
            assert(0 <= v[0] < t@.subrange(0, 0).len());
            assert(false);
        }
        assert(spec_embeds(p@.subrange(0, 0), t@.subrange(0, 0), w));
    }
    while i < t.len()
        invariant
            0 <= j < p.len(),
            i <= t.len(),
            spec_embeds(p@.subrange(0, j as int), t@.subrange(0, i as int), w),
            !spec_is_subsequence(p@.subrange(0, j + 1), t@.subrange(0, i as int)),
        decreases t.len() - i,
    {
        if t[i] == p[j] {
            proof {
                let w2 = w.push(i as int);
                assert forall|k: int| 0 <= k < w2.len() implies 0 <= #[trigger] w2[k] < i + 1
                    && t@.subrange(0, i + 1)[w2[k]] == p@.subrange(0, j + 1)[k] by {
                    if k < j {
                        assert(t@.subrange(0, i as int)[w[k]] == p@.subrange(0, j as int)[k]);
                    }
                }
                assert(spec_embeds(p@.subrange(0, j + 1), t@.subrange(0, i + 1), w2));
                if j + 1 < p.len() {
                    lemma_greedy_step_hit(p@, t@, i as int, j as int);
                }
                w = w2;
            }
            if j + 1 == p.len() {
                proof {
                    assert(p@.subrange(0, j + 1) =~= p@);
                    assert forall|k: int| 0 <= k < w.len() implies 0 <= #[trigger] w[k] < t@.len()
                        && t@[w[k]] == p@[k] by {
                        assert(t@.subrange(0, i + 1)[w[k]] == p@.subrange(0, j + 1)[k]);
                    }
                    assert(spec_embeds(p@, t@, w));
                }
                return true;
            }
            j = j + 1;
        } else {
            proof {
                lemma_greedy_step_miss(p@, t@, i as int, j as int);
                assert forall|k: int| 0 <= k < w.len() implies 0 <= #[trigger] w[k] < i + 1
                    && t@.subrange(0, i + 1)[w[k]] == p@.subrange(0, j as int)[k] by {
                    assert(t@.subrange(0, i as int)[w[k]] == p@.subrange(0, j as int)[k]);
                }
            }
        }
        i = i + 1;
    }
    proof {
        assert(t@.subrange(0, i as int) =~= t@);
        if spec_is_subsequence(p@, t@) {
            let v = choose|v: Seq<int>| #[trigger] spec_embeds(p@, t@, v);
            lemma_embeds_prefix(p@, t@, v, j + 1);
        }
    }
    false
}

/// Whether `pattern` is, ignoring case, a subsequence of `text`; the empty
/// pattern matches everything.
pub fn fuzzy_match(pattern: &str, text: &str) -> (r: bool)
    ensures
        r == spec_fuzzy_match(pattern@, text@),
{
    let pattern_lower = lowercase(pattern);
    let text_lower = lowercase(text);
    let p = chars_of(pattern_lower.as_str());
    let t = chars_of(text_lower.as_str());
    is_subsequence(&p, &t)
}

} // verus!
