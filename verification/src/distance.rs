//! Edit-distance scorer: the dissimilarity metric between the original
//! stub of a challenge and the user's current submission.

use vstd::prelude::*;
use vstd::string::StrSliceExecFns;

verus! {

/// The least of three costs.
pub open spec fn min3(a: nat, b: nat, c: nat) -> nat {
    if a <= b && a <= c {
        a
    } else if b <= c {
        b
    } else {
        c
    }
}

/// Levenshtein distance between two character sequences: the least
/// number of single-character insertions, deletions and substitutions
/// (unit cost each) that turn `s` into `t`.
pub open spec fn edit_distance(s: Seq<char>, t: Seq<char>) -> nat
    decreases s.len() + t.len(),
{
    if s.len() == 0 {
        t.len()
    } else if t.len() == 0 {
        s.len()
    } else {
        let deletion = edit_distance(s.drop_last(), t) + 1;
        let insertion = edit_distance(s, t.drop_last()) + 1;
        let substitution = edit_distance(s.drop_last(), t.drop_last()) + (if s.last() == t.last() {
            0nat
        } else {
            1nat
        });
        min3(deletion, insertion, substitution)
    }
}

/// A string is at distance zero from itself.
pub proof fn lemma_edit_distance_self(s: Seq<char>)
    ensures
        edit_distance(s, s) == 0,
    decreases s.len(),
{
    if s.len() != 0 {
        lemma_edit_distance_self(s.drop_last());
    }
}

/// The distance is symmetric: each edit script from `s` to `t` inverts
/// into one from `t` to `s` of the same cost.
pub proof fn lemma_edit_distance_symmetric(s: Seq<char>, t: Seq<char>)
    ensures
        edit_distance(s, t) == edit_distance(t, s),
    decreases s.len() + t.len(),
{
    if s.len() != 0 && t.len() != 0 {
        lemma_edit_distance_symmetric(s.drop_last(), t);
        lemma_edit_distance_symmetric(s, t.drop_last());
        lemma_edit_distance_symmetric(s.drop_last(), t.drop_last());
    }
}

/// Against the empty string the distance is the other string's length.
pub proof fn lemma_edit_distance_empty(s: Seq<char>, t: Seq<char>)
    ensures
        edit_distance(Seq::<char>::empty(), t) == t.len(),
        edit_distance(s, Seq::<char>::empty()) == s.len(),
{
}

/// The distance never exceeds the longer string's length: replacing
/// every character and inserting or deleting the excess always works.
pub proof fn lemma_edit_distance_bound(s: Seq<char>, t: Seq<char>)
    ensures
        edit_distance(s, t) <= vstd::math::max(s.len() as int, t.len() as int),
    decreases s.len() + t.len(),
{
    if s.len() != 0 && t.len() != 0 {
        lemma_edit_distance_bound(s.drop_last(), t);
        lemma_edit_distance_bound(s, t.drop_last());
        lemma_edit_distance_bound(s.drop_last(), t.drop_last());
    }
}

/// The characters of `s`, in order, as a vector.
fn chars_of(s: &str) -> (v: Vec<char>)
    ensures
        v@ == s@,
{
    let n: usize = s.unicode_len();
    let mut v: Vec<char> = Vec::new();
    let mut i: usize = 0;
    while i < n
        invariant
            n == s@.len(),
            i <= n,
            v@ == s@.take(i as int),
        decreases n - i,
    {
        let c = s.get_char(i);
        v.push(c);
        proof {
            assert(s@.take(i as int).push(s@[i as int]) =~= s@.take(i + 1));
        }
        i = i + 1;
    }
    proof {
        assert(s@.take(n as int) =~= s@);
    }
    v
}

/// Levenshtein distance between `s1` and `s2`, counted over Unicode
/// scalar values, computed with the two-row dynamic-programming
/// reduction: only the previous and the current cost row are kept.
pub fn minimum_edit_distance(s1: &str, s2: &str) -> (d: usize)
    requires
        s1@.len() < usize::MAX,
        s2@.len() < usize::MAX,
    ensures
        d == edit_distance(s1@, s2@),
{
    let s = chars_of(s1);
    let t = chars_of(s2);
    let s_len = s.len();
    let t_len = t.len();

    let mut v0: Vec<usize> = Vec::new();
    let mut j: usize = 0;
    while j <= t_len
        invariant
            t_len < usize::MAX,
            j <= t_len + 1,
            v0@.len() == j,
            forall|k: int| 0 <= k < j ==> v0@[k] == k,
        decreases t_len + 1 - j,
    {
        v0.push(j);
        j = j + 1;
    }

    let mut v1: Vec<usize> = Vec::new();
    let mut j: usize = 0;
    while j <= t_len
        invariant
            t_len < usize::MAX,
            j <= t_len + 1,
            v1@.len() == j,
        decreases t_len + 1 - j,
    {
        v1.push(0);
        j = j + 1;
    }

    proof {
        assert forall|k: int| 0 <= k <= t_len implies v0@[k] == edit_distance(
            s@.take(0),
            t@.take(k),
        ) by {
            assert(s@.take(0).len() == 0);
            assert(t@.take(k).len() == k);
        }
    }

    let mut i: usize = 0;
    while i < s_len
        invariant
            s@ == s1@,
            t@ == s2@,
            s_len == s@.len(),
            t_len == t@.len(),
            s_len < usize::MAX,
            t_len < usize::MAX,
            i <= s_len,
            v0@.len() == t_len + 1,
            v1@.len() == t_len + 1,
            forall|k: int|
                0 <= k <= t_len ==> v0@[k] == edit_distance(s@.take(i as int), t@.take(k)),
        decreases s_len - i,
    {
        v1[0] = i + 1;
        proof {
            assert(s@.take(i + 1).len() == i + 1);
            assert(t@.take(0).len() == 0);
            assert(v1@[0] == edit_distance(s@.take(i + 1), t@.take(0)));
        }

        let mut j: usize = 0;
        while j < t_len
            invariant
                s@ == s1@,
                t@ == s2@,
                s_len == s@.len(),
                t_len == t@.len(),
                s_len < usize::MAX,
                t_len < usize::MAX,
                i < s_len,
                j <= t_len,
                v0@.len() == t_len + 1,
                v1@.len() == t_len + 1,
                forall|k: int|
                    0 <= k <= t_len ==> v0@[k] == edit_distance(s@.take(i as int), t@.take(k)),
                forall|k: int|
                    0 <= k <= j ==> v1@[k] == edit_distance(s@.take(i + 1), t@.take(k)),
            decreases t_len - j,
        {
            proof {
                lemma_edit_distance_bound(s@.take(i as int), t@.take(j + 1));
                lemma_edit_distance_bound(s@.take(i + 1), t@.take(j as int));
                lemma_edit_distance_bound(s@.take(i as int), t@.take(j as int));
            }
            let deletion_cost = v0[j + 1] + 1;
            let insertion_cost = v1[j] + 1;
            let substitution_cost = if s[i] == t[j] {
                v0[j]
            } else {
                v0[j] + 1
            };

            let mut best = deletion_cost;
            if insertion_cost < best {
                best = insertion_cost;
            }
            if substitution_cost < best {
                best = substitution_cost;
            }
            v1[j + 1] = best;

            proof {
                let sp = s@.take(i + 1);
                let tp = t@.take(j + 1);
                assert(sp.drop_last() =~= s@.take(i as int));
                assert(tp.drop_last() =~= t@.take(j as int));
                assert(sp.last() == s@[i as int]);
                assert(tp.last() == t@[j as int]);
                assert(v1@[j + 1] == edit_distance(sp, tp));
            }
            j = j + 1;
        }

        let tmp = v0;
        v0 = v1;
        v1 = tmp;
        i = i + 1;
    }

    proof {
        assert(s@.take(s_len as int) =~= s@);
        assert(t@.take(t_len as int) =~= t@);
    }
    v0[t_len]
}

} // verus!
