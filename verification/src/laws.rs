//! The laws the reconciliation obeys, stated once and proved for every
//! input.

use vstd::prelude::*;

use crate::extract::{spec_used, template_env_from_refs, template_env_var_refs,
    template_projected_refs, template_volume_refs, workload_references};
use crate::model::{PodTemplate, Workload};
use crate::names::has_name;
use crate::pattern::{filter_keeps, regex_found};
use crate::reconcile::{spec_candidate, spec_exempted};

verus! {

/// Idempotence: scanning twice against unchanged cluster state yields the
/// same candidate set. Any two outcomes that satisfy the scan's contract
/// for the same declared names, workloads and filter agree on every name.
pub proof fn lemma_scan_idempotent(
    declared: Seq<String>,
    workloads: Seq<Workload>,
    filter: Option<Seq<char>>,
    inverse: bool,
    c1: Seq<String>,
    c2: Seq<String>,
)
    requires
        forall|n: Seq<char>| #![trigger has_name(c1, n)]
            has_name(c1, n) <==> spec_candidate(declared, workloads, filter, inverse, n),
        forall|n: Seq<char>| #![trigger has_name(c2, n)]
            has_name(c2, n) <==> spec_candidate(declared, workloads, filter, inverse, n),
    ensures
        forall|n: Seq<char>| #![trigger has_name(c1, n), has_name(c2, n)]
            has_name(c1, n) <==> has_name(c2, n),
{
    assert forall|n: Seq<char>| #![trigger has_name(c1, n), has_name(c2, n)]
        has_name(c1, n) <==> has_name(c2, n) by {
        assert(has_name(c1, n) <==> spec_candidate(declared, workloads, filter, inverse, n));
        assert(has_name(c2, n) <==> spec_candidate(declared, workloads, filter, inverse, n));
    }
}

/// Soundness of extraction, env-var shape: a ConfigMap referenced even once
/// through an environment variable key reference of some workload's
/// template is used, and never a deletion candidate.
pub proof fn lemma_env_var_reference_is_used(
    declared: Seq<String>,
    workloads: Seq<Workload>,
    filter: Option<Seq<char>>,
    inverse: bool,
    k: int,
    pt: PodTemplate,
    n: Seq<char>,
)
    requires
        0 <= k < workloads.len(),
        workloads[k].body.spec_pod_spec() == Some(pt),
        template_env_var_refs(pt, n),
    ensures
        spec_used(workloads, n),
        !spec_candidate(declared, workloads, filter, inverse, n),
{
    assert(workload_references(workloads[k], n));
}

/// Soundness of extraction, env-from shape: a ConfigMap injected wholesale
/// into some container's environment is used, and never a deletion
/// candidate.
pub proof fn lemma_env_from_reference_is_used(
    declared: Seq<String>,
    workloads: Seq<Workload>,
    filter: Option<Seq<char>>,
    inverse: bool,
    k: int,
    pt: PodTemplate,
    n: Seq<char>,
)
    requires
        0 <= k < workloads.len(),
        workloads[k].body.spec_pod_spec() == Some(pt),
        template_env_from_refs(pt, n),
    ensures
        spec_used(workloads, n),
        !spec_candidate(declared, workloads, filter, inverse, n),
{
    assert(workload_references(workloads[k], n));
}

/// Soundness of extraction, volume shape: a ConfigMap mounted directly by
/// some volume is used, and never a deletion candidate.
pub proof fn lemma_volume_reference_is_used(
    declared: Seq<String>,
    workloads: Seq<Workload>,
    filter: Option<Seq<char>>,
    inverse: bool,
    k: int,
    pt: PodTemplate,
    n: Seq<char>,
)
    requires
        0 <= k < workloads.len(),
        workloads[k].body.spec_pod_spec() == Some(pt),
        template_volume_refs(pt, n),
    ensures
        spec_used(workloads, n),
        !spec_candidate(declared, workloads, filter, inverse, n),
{
    assert(workload_references(workloads[k], n));
}

/// Soundness of extraction, projected-volume shape: a ConfigMap read by a
/// projection source of some projected volume is used, and never a
/// deletion candidate.
pub proof fn lemma_projected_reference_is_used(
    declared: Seq<String>,
    workloads: Seq<Workload>,
    filter: Option<Seq<char>>,
    inverse: bool,
    k: int,
    pt: PodTemplate,
    n: Seq<char>,
)
    requires
        0 <= k < workloads.len(),
        workloads[k].body.spec_pod_spec() == Some(pt),
        template_projected_refs(pt, n),
    ensures
        spec_used(workloads, n),
        !spec_candidate(declared, workloads, filter, inverse, n),
{
    assert(workload_references(workloads[k], n));
}

/// Exemption invariant: the root certificate ConfigMap is never a deletion
/// candidate, whatever is declared, referenced or filtered.
pub proof fn lemma_exemption_never_candidate(
    declared: Seq<String>,
    workloads: Seq<Workload>,
    filter: Option<Seq<char>>,
    inverse: bool,
)
    ensures
        !spec_candidate(declared, workloads, filter, inverse, "kube-root-ca.crt"@),
{
}

/// Filter correctness: with the filter not inverted, exactly the names the
/// pattern matches are kept; inverted, exactly those it does not match.
pub proof fn lemma_filter_direction(p: Seq<char>, n: Seq<char>)
    ensures
        filter_keeps(Some(p), false, n) == regex_found(p, n),
        filter_keeps(Some(p), true, n) == !regex_found(p, n),
{
}

/// Set algebra: a name is a candidate exactly when it is declared, not
/// used by any workload, not exempted, and kept by the filter.
pub proof fn lemma_candidate_set_algebra(
    declared: Seq<String>,
    workloads: Seq<Workload>,
    filter: Option<Seq<char>>,
    inverse: bool,
    n: Seq<char>,
)
    ensures
        spec_candidate(declared, workloads, filter, inverse, n) <==> (has_name(declared, n)
            && !spec_used(workloads, n) && !spec_exempted(n) && filter_keeps(filter, inverse, n)),
{
}

} // verus!
