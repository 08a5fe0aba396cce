//! Collections of ConfigMap names, read as sets of character sequences.

use vstd::prelude::*;

verus! {

/// Membership of the name `n` in the collection `v`: the collection stands
/// for the set of the views of its entries.
pub open spec fn has_name(v: Seq<String>, n: Seq<char>) -> bool {
    exists|i: int| 0 <= i < v.len() && v[i]@ == n
}

/// No two entries of `v` spell the same name.
pub open spec fn unique_names(v: Seq<String>) -> bool {
    forall|i: int, j: int| 0 <= i < j < v.len() ==> v[i]@ != v[j]@
}

/// Whether `v` holds an entry equal to `n`.
pub fn contains_name(v: &Vec<String>, n: &String) -> (b: bool)
    ensures
        b == has_name(v@, n@),
{
    let mut k: usize = 0;
    while k < v.len()
        invariant
            k <= v@.len(),
            forall|i: int| 0 <= i < k ==> v@[i]@ != n@,
        decreases v@.len() - k,
    {
        if v[k] == *n {
            assert(v@[k as int]@ == n@);
            return true;
        }
        k += 1;
    }
    false
}

/// Appends `n` unless an entry with the same name is already present, so a
/// unique collection stays unique and gains exactly the name `n`.
pub fn push_unique(v: &mut Vec<String>, n: String)
    requires
        unique_names(old(v)@),
    ensures
        unique_names(final(v)@),
        forall|m: Seq<char>| #![trigger has_name(final(v)@, m)]
            has_name(final(v)@, m) <==> (has_name(old(v)@, m) || m == n@),
{
    if !contains_name(v, &n) {
        let ghost prev = v@;
        v.push(n);
        assert forall|m: Seq<char>| #![trigger has_name(v@, m)]
            has_name(v@, m) <==> (has_name(prev, m) || m == n@) by {
            if has_name(v@, m) {
                let i = choose|i: int| 0 <= i < v@.len() && v@[i]@ == m;
                if i < prev.len() {
                    assert(prev[i]@ == m);
                }
            }
            if has_name(prev, m) {
                let i = choose|i: int| 0 <= i < prev.len() && prev[i]@ == m;
                assert(v@[i]@ == m);
            }
            if m == n@ {
                assert(v@[prev.len() as int]@ == m);
            }
        }
    } else {
        assert forall|m: Seq<char>| #![trigger has_name(v@, m)]
            has_name(v@, m) <==> (has_name(old(v)@, m) || m == n@) by {
            if m == n@ {
                assert(has_name(v@, m));
            }
        }
    }
}

/// Adds every name of `w` that `v` lacks, so `v` afterwards holds exactly
/// the union of the two name sets.
pub fn extend_unique(v: &mut Vec<String>, w: &Vec<String>)
    requires
        unique_names(old(v)@),
    ensures
        unique_names(final(v)@),
        forall|m: Seq<char>| #![trigger has_name(final(v)@, m)]
            has_name(final(v)@, m) <==> (has_name(old(v)@, m) || has_name(w@, m)),
{
    let mut k: usize = 0;
    while k < w.len()
        invariant
            k <= w@.len(),
            unique_names(v@),
            forall|m: Seq<char>| #![trigger has_name(v@, m)]
                has_name(v@, m) <==> (has_name(old(v)@, m) || has_name(w@.take(k as int), m)),
        decreases w@.len() - k,
    {
        let ghost before = v@;
        push_unique(v, w[k].clone());
        assert forall|m: Seq<char>| #![trigger has_name(v@, m)]
            has_name(v@, m) <==> (has_name(old(v)@, m) || has_name(w@.take(k as int + 1), m)) by {
            assert(has_name(v@, m) <==> (has_name(before, m) || m == w@[k as int]@));
            let wk = w@.take(k as int);
            let wk1 = w@.take(k as int + 1);
            if has_name(wk1, m) {
                let i = choose|i: int| 0 <= i < wk1.len() && wk1[i]@ == m;
                if i < k {
                    assert(wk[i]@ == m);
                }
            }
            if has_name(wk, m) {
                let i = choose|i: int| 0 <= i < wk.len() && wk[i]@ == m;
                assert(wk1[i]@ == m);
            }
            if m == w@[k as int]@ {
                assert(wk1[k as int]@ == m);
            }
        }
        k += 1;
    }
    assert(w@.take(w@.len() as int) == w@);
}

/// Copies `v` while dropping repeated names, so the result spells each name
/// of `v` exactly once.
pub fn dedup_names(v: &Vec<String>) -> (r: Vec<String>)
    ensures
        unique_names(r@),
        forall|m: Seq<char>| #![trigger has_name(r@, m)] has_name(r@, m) <==> has_name(v@, m),
{
    let mut out: Vec<String> = Vec::new();
    extend_unique(&mut out, v);
    assert forall|m: Seq<char>| #![trigger has_name(out@, m)]
        has_name(out@, m) <==> has_name(v@, m) by {
        assert(!has_name(Seq::<String>::empty(), m));
    }
    out
}

} // verus!
