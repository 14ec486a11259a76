use vstd::prelude::*;
use crate::text::{
    text_lt, text_less, lemma_text_lt_transitive, lemma_text_lt_total,
};

verus! {

/// The texts are in strictly increasing order, so none occurs twice.
pub open spec fn strictly_sorted(s: Seq<String>) -> bool {
    forall|i: int, j: int| 0 <= i < j < s.len() ==> text_lt(#[trigger] s[i]@, #[trigger] s[j]@)
}

/// The texts that occur in `s`.
pub open spec fn text_set(s: Seq<String>) -> Set<Seq<char>> {
    Set::new(|t: Seq<char>| exists|i: int| 0 <= i < s.len() && #[trigger] s[i]@ == t)
}

/// Adds `x` to an ordered list of distinct texts, keeping it ordered and
/// distinct (the sort and dedup of a list, done one insertion at a time).
pub fn insert_sorted(v: &mut Vec<String>, x: String)
    requires
        strictly_sorted(old(v)@),
    ensures
        strictly_sorted(final(v)@),
        text_set(final(v)@) == text_set(old(v)@).insert(x@),
{
    let mut p: usize = 0;
    while p < v.len() && text_less(v[p].as_str(), x.as_str())
        invariant
            p <= v@.len(),
            forall|q: int| 0 <= q < p ==> text_lt(#[trigger] v@[q]@, x@),
        decreases v@.len() - p,
    {
        p = p + 1;
    }
    if p < v.len() && v[p] == x {
        proof {
            assert(text_set(v@) =~= text_set(v@).insert(x@)) by {
                assert(v@[p as int]@ == x@);
            }
        }
        return;
    }
    let ghost old_v = v@;
    proof {
        if p < old_v.len() {
            assert(!text_lt(old_v[p as int]@, x@));
            assert(old_v[p as int]@ != x@);
            lemma_text_lt_total(old_v[p as int]@, x@);
            assert(text_lt(x@, old_v[p as int]@));
        }
    }
    v.insert(p, x);
    proof {
        let t = v@;
        assert(t == old_v.insert(p as int, x));
        assert forall|q: int| p < q < t.len() implies text_lt(x@, #[trigger] t[q]@) by {
            assert(t[q] == old_v[q - 1]);
            if q - 1 > p {
                assert(text_lt(old_v[p as int]@, old_v[q - 1]@));
                lemma_text_lt_transitive(x@, old_v[p as int]@, old_v[q - 1]@);
            }
        }
        assert forall|i: int, j: int| 0 <= i < j < t.len() implies text_lt(
            #[trigger] t[i]@,
            #[trigger] t[j]@,
        ) by {
            if j < p {
                assert(t[i] == old_v[i] && t[j] == old_v[j]);
            } else if j == p {
                assert(t[i] == old_v[i]);
            } else if i < p {
                assert(t[i] == old_v[i]);
                assert(text_lt(x@, t[j]@));
                lemma_text_lt_transitive(t[i]@, x@, t[j]@);
            } else if i == p {
            } else {
                assert(t[i] == old_v[i - 1] && t[j] == old_v[j - 1]);
            }
        }
        assert forall|s: Seq<char>| #[trigger] text_set(t).contains(s) <==> text_set(old_v).insert(
            x@,
        ).contains(s) by {
            if text_set(t).contains(s) {
                let i = choose|i: int| 0 <= i < t.len() && #[trigger] t[i]@ == s;
                if i < p {
                    assert(t[i] == old_v[i]);
                } else if i > p {
                    assert(t[i] == old_v[i - 1]);
                }
            }
            if text_set(old_v).contains(s) {
                let i = choose|i: int| 0 <= i < old_v.len() && #[trigger] old_v[i]@ == s;
                if i < p {
                    assert(t[i] == old_v[i]);
                } else {
                    assert(t[i + 1] == old_v[i]);
                }
            }
            if s == x@ {
                assert(t[p as int]@ == s);
            }
        }
        assert(text_set(t) =~= text_set(old_v).insert(x@));
    }
}

} // verus!
