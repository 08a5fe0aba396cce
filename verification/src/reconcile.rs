//! Reconciliation: from the declared and used name sets to the deletion
//! candidates.
//!
//! A declared ConfigMap is a candidate exactly when no workload references
//! it, it is not exempted, and the optional user filter keeps it. With
//! dry-run set, the candidate set is still computed and reported but
//! nothing is handed on for deletion.

use vstd::prelude::*;

use crate::extract::{get_config_map_references, spec_used};
use crate::model::Workload;
use crate::names::{contains_name, dedup_names, has_name, push_unique, unique_names};
use crate::pattern::{filter_keeps, filter_keeps_name, filter_valid, filter_view, validate_filter};

verus! {

/// The fatal errors the reconciliation itself can raise. Transport errors
/// of the cluster client never reach this code: fetching happens outside
/// and aborts the run before the core is called.
#[derive(Debug, PartialEq, Eq)]
pub enum CleanError {
    /// The user-supplied filter pattern is not a well-formed regular
    /// expression.
    InvalidFilter,
}

/// Whether the name `n` is exempted from deletion. The exemption applies
/// always, whatever the filter direction.
pub open spec fn spec_exempted(n: Seq<char>) -> bool {
    n == "kube-root-ca.crt"@
}

/// Whether the declared name `n` is a deletion candidate: declared, unused,
/// not exempted, and kept by the filter.
pub open spec fn spec_candidate(
    declared: Seq<String>,
    workloads: Seq<Workload>,
    filter: Option<Seq<char>>,
    inverse: bool,
    n: Seq<char>,
) -> bool {
    &&& has_name(declared, n)
    &&& !spec_used(workloads, n)
    &&& !spec_exempted(n)
    &&& filter_keeps(filter, inverse, n)
}

/// Whether `name` is exempted from deletion.
pub fn is_exempted(name: &String) -> (b: bool)
    ensures
        b == spec_exempted(name@),
{
    let root_ca: String = "kube-root-ca.crt".to_owned();
    *name == root_ca
}

/// The declared names that are neither used nor exempted, each exactly
/// once, in declared order.
pub fn unused_config_maps(declared: &Vec<String>, used: &Vec<String>) -> (r: Vec<String>)
    ensures
        unique_names(r@),
        forall|n: Seq<char>| #![trigger has_name(r@, n)]
            has_name(r@, n) <==> (has_name(declared@, n) && !has_name(used@, n)
                && !spec_exempted(n)),
{
    let mut out: Vec<String> = Vec::new();
    let mut k: usize = 0;
    while k < declared.len()
        invariant
            k <= declared@.len(),
            unique_names(out@),
            forall|n: Seq<char>| #![trigger has_name(out@, n)]
                has_name(out@, n) <==> (has_name(declared@.take(k as int), n)
                    && !has_name(used@, n) && !spec_exempted(n)),
        decreases declared@.len() - k,
    {
        let ghost before = out@;
        let name = &declared[k];
        if !contains_name(used, name) && !is_exempted(name) {
            push_unique(&mut out, name.clone());
        }
        proof {
            let dk = declared@.take(k as int);
            let dk1 = declared@.take(k as int + 1);
            assert forall|n: Seq<char>| #![trigger has_name(out@, n)]
                has_name(out@, n) <==> (has_name(dk1, n) && !has_name(used@, n)
                    && !spec_exempted(n)) by {
                if has_name(dk, n) {
                    let i = choose|i: int| 0 <= i < dk.len() && dk[i]@ == n;
                    assert(dk1[i]@ == n);
                }
                if n == declared@[k as int]@ {
                    assert(dk1[k as int]@ == n);
                }
                if has_name(dk1, n) && !has_name(dk, n) {
                    let i = choose|i: int| 0 <= i < dk1.len() && dk1[i]@ == n;
                    if i < k {
                        assert(dk[i]@ == n);
                    }
                    assert(n == declared@[k as int]@);
                }
                if has_name(out@, n) && !has_name(before, n) {
                    assert(n == declared@[k as int]@);
                }
            }
        }
        k += 1;
    }
    proof {
        assert(declared@.take(declared@.len() as int) == declared@);
    }
    out
}

/// Applies the user filter to a set of names: keeps exactly the matching
/// names, or exactly the non-matching ones when inverted, and fails — before
/// looking at a single name — when the pattern does not compile.
pub fn apply_filter(names: &Vec<String>, filter: &Option<String>, inverse_filter: bool) -> (r:
    Result<Vec<String>, CleanError>)
    ensures
        r is Ok <==> filter_valid(filter_view(*filter)),
        r matches Err(e) ==> e == CleanError::InvalidFilter,
        r matches Ok(kept) ==> {
            &&& unique_names(kept@)
            &&& forall|n: Seq<char>| #![trigger has_name(kept@, n)]
                has_name(kept@, n) <==> (has_name(names@, n)
                    && filter_keeps(filter_view(*filter), inverse_filter, n))
        },
{
    if !validate_filter(filter) {
        return Err(CleanError::InvalidFilter);
    }
    let mut out: Vec<String> = Vec::new();
    let mut k: usize = 0;
    while k < names.len()
        invariant
            k <= names@.len(),
            unique_names(out@),
            filter_valid(filter_view(*filter)),
            forall|n: Seq<char>| #![trigger has_name(out@, n)]
                has_name(out@, n) <==> (has_name(names@.take(k as int), n)
                    && filter_keeps(filter_view(*filter), inverse_filter, n)),
        decreases names@.len() - k,
    {
        let ghost before = out@;
        let name = &names[k];
        if filter_keeps_name(filter, inverse_filter, name) {
            push_unique(&mut out, name.clone());
        }
        proof {
            let nk = names@.take(k as int);
            let nk1 = names@.take(k as int + 1);
            assert forall|n: Seq<char>| #![trigger has_name(out@, n)]
                has_name(out@, n) <==> (has_name(nk1, n)
                    && filter_keeps(filter_view(*filter), inverse_filter, n)) by {
                if has_name(nk, n) {
                    let i = choose|i: int| 0 <= i < nk.len() && nk[i]@ == n;
                    assert(nk1[i]@ == n);
                }
                if n == names@[k as int]@ {
                    assert(nk1[k as int]@ == n);
                }
                if has_name(nk1, n) && !has_name(nk, n) {
                    let i = choose|i: int| 0 <= i < nk1.len() && nk1[i]@ == n;
                    if i < k {
                        assert(nk[i]@ == n);
                    }
                    assert(n == names@[k as int]@);
                }
                if has_name(out@, n) && !has_name(before, n) {
                    assert(n == names@[k as int]@);
                }
            }
        }
        k += 1;
    }
    proof {
        assert(names@.take(names@.len() as int) == names@);
    }
    Ok(out)
}

/// The names actually handed to the deletion pass: none at all under
/// dry-run, and exactly the candidates otherwise.
pub fn deletion_targets(candidates: &Vec<String>, dry_run: bool) -> (r: Vec<String>)
    ensures
        dry_run ==> r@.len() == 0,
        !dry_run ==> r@ == candidates@,
{
    if dry_run {
        Vec::new()
    } else {
        let mut out: Vec<String> = Vec::new();
        let mut k: usize = 0;
        while k < candidates.len()
            invariant
                k <= candidates@.len(),
                out@ == candidates@.take(k as int),
            decreases candidates@.len() - k,
        {
            out.push(candidates[k].clone());
            proof {
                assert(out@ =~= candidates@.take(k as int + 1));
            }
            k += 1;
        }
        proof {
            assert(candidates@.take(candidates@.len() as int) == candidates@);
        }
        out
    }
}

/// The outcome of one scan: the deduplicated declared names, the used
/// names, the deletion candidates, and the names to delete (empty under
/// dry-run).
pub struct CleanOutcome {
    pub declared: Vec<String>,
    pub used: Vec<String>,
    pub candidates: Vec<String>,
    pub to_delete: Vec<String>,
}

/// One full reconciliation over already-fetched cluster state: extracts
/// every ConfigMap reference from the workloads, diffs the declared names
/// against them, applies the exemption and the optional filter, and decides
/// what to delete. An invalid filter pattern aborts before any name is
/// considered.
pub fn clean_config_maps(
    config_maps: &Vec<String>,
    workloads: &Vec<Workload>,
    dry_run: bool,
    filter: &Option<String>,
    inverse_filter: bool,
) -> (r: Result<CleanOutcome, CleanError>)
    ensures
        r is Ok <==> filter_valid(filter_view(*filter)),
        r matches Err(e) ==> e == CleanError::InvalidFilter,
        r matches Ok(o) ==> {
            &&& unique_names(o.declared@)
            &&& unique_names(o.used@)
            &&& unique_names(o.candidates@)
            &&& forall|n: Seq<char>| #![trigger has_name(o.declared@, n)]
                has_name(o.declared@, n) <==> has_name(config_maps@, n)
            &&& forall|n: Seq<char>| #![trigger has_name(o.used@, n)]
                has_name(o.used@, n) <==> spec_used(workloads@, n)
            &&& forall|n: Seq<char>| #![trigger has_name(o.candidates@, n)]
                has_name(o.candidates@, n) <==> spec_candidate(
                    config_maps@,
                    workloads@,
                    filter_view(*filter),
                    inverse_filter,
                    n,
                )
            &&& dry_run ==> o.to_delete@.len() == 0
            &&& !dry_run ==> o.to_delete@ == o.candidates@
        },
{
    if !validate_filter(filter) {
        return Err(CleanError::InvalidFilter);
    }
    let used = get_config_map_references(workloads);
    let declared = dedup_names(config_maps);
    let unused = unused_config_maps(&declared, &used);
    let candidates = match apply_filter(&unused, filter, inverse_filter) {
        Ok(kept) => kept,
        Err(e) => {
            return Err(e);
        }
    };
    let to_delete = deletion_targets(&candidates, dry_run);
    Ok(CleanOutcome { declared, used, candidates, to_delete })
}

} // verus!
