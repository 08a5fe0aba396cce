//! Reference extraction: every way a pod template can consume a ConfigMap.
//!
//! Four independent passes walk a template — environment variable key
//! references, bulk environment injection, directly mounted volumes and
//! projected volumes — and their union is the set of ConfigMap names the
//! template references. Each pass is total: an absent optional field simply
//! contributes nothing.

use vstd::prelude::*;

use crate::model::{Container, EnvFromSource, EnvVarDef, PodTemplate, Volume, VolumeProjection,
    Workload};
use crate::names::{extend_unique, has_name, push_unique, unique_names};

verus! {

/// Whether the environment variable definition `e` references the ConfigMap
/// named `n` through a key reference.
pub open spec fn env_var_entry_ref(e: EnvVarDef, n: Seq<char>) -> bool {
    e.config_map_key_ref matches Some(r) && r.name@ == n
}

/// Whether some environment variable of the container `c` references `n`.
pub open spec fn container_env_var_ref(c: Container, n: Seq<char>) -> bool {
    exists|j: int| 0 <= j < c.env@.len() && env_var_entry_ref(#[trigger] c.env@[j], n)
}

/// Whether the bulk environment source `s` injects the ConfigMap named `n`.
pub open spec fn env_from_entry_ref(s: EnvFromSource, n: Seq<char>) -> bool {
    s.config_map_ref matches Some(r) && r@ == n
}

/// Whether some bulk environment source of the container `c` references `n`.
pub open spec fn container_env_from_ref(c: Container, n: Seq<char>) -> bool {
    exists|j: int| 0 <= j < c.env_from@.len() && env_from_entry_ref(#[trigger] c.env_from@[j], n)
}

/// Whether the volume `v` mounts the ConfigMap named `n` directly.
pub open spec fn volume_direct_ref(v: Volume, n: Seq<char>) -> bool {
    v.config_map matches Some(r) && r@ == n
}

/// Whether the projection source `p` reads the ConfigMap named `n`.
pub open spec fn projection_ref(p: VolumeProjection, n: Seq<char>) -> bool {
    p.config_map matches Some(r) && r@ == n
}

/// Whether the volume `v` is a projected volume with a source reading `n`.
pub open spec fn volume_projected_ref(v: Volume, n: Seq<char>) -> bool {
    v.projected matches Some(ps)
        && exists|j: int| 0 <= j < ps@.len() && projection_ref(#[trigger] ps@[j], n)
}

/// Whether some environment variable anywhere in the template references `n`.
pub open spec fn template_env_var_refs(pt: PodTemplate, n: Seq<char>) -> bool {
    exists|i: int| 0 <= i < pt.containers@.len()
        && container_env_var_ref(#[trigger] pt.containers@[i], n)
}

/// Whether some bulk environment source anywhere in the template references `n`.
pub open spec fn template_env_from_refs(pt: PodTemplate, n: Seq<char>) -> bool {
    exists|i: int| 0 <= i < pt.containers@.len()
        && container_env_from_ref(#[trigger] pt.containers@[i], n)
}

/// Whether some volume of the template mounts `n` directly.
pub open spec fn template_volume_refs(pt: PodTemplate, n: Seq<char>) -> bool {
    exists|i: int| 0 <= i < pt.volumes@.len()
        && volume_direct_ref(#[trigger] pt.volumes@[i], n)
}

/// Whether some projected volume of the template reads `n`.
pub open spec fn template_projected_refs(pt: PodTemplate, n: Seq<char>) -> bool {
    exists|i: int| 0 <= i < pt.volumes@.len()
        && volume_projected_ref(#[trigger] pt.volumes@[i], n)
}

/// Whether the template references `n` through any of the four consumption
/// patterns. A single reference of any shape makes the name used.
pub open spec fn template_references(pt: PodTemplate, n: Seq<char>) -> bool {
    ||| template_env_var_refs(pt, n)
    ||| template_env_from_refs(pt, n)
    ||| template_volume_refs(pt, n)
    ||| template_projected_refs(pt, n)
}

/// Whether the workload `w` references `n`: a workload without a reachable
/// pod template references nothing.
pub open spec fn workload_references(w: Workload, n: Seq<char>) -> bool {
    w.body.spec_pod_spec() matches Some(pt) && template_references(pt, n)
}

/// Whether any workload of `ws` references `n`: the "used" set of the scan.
pub open spec fn spec_used(ws: Seq<Workload>, n: Seq<char>) -> bool {
    exists|k: int| 0 <= k < ws.len() && workload_references(#[trigger] ws[k], n)
}

/// Adds to `out` every ConfigMap name referenced by an environment variable
/// of the container `c`.
fn collect_env_var_refs(c: &Container, out: &mut Vec<String>)
    requires
        unique_names(old(out)@),
    ensures
        unique_names(final(out)@),
        forall|n: Seq<char>| #![trigger has_name(final(out)@, n)]
            has_name(final(out)@, n) <==> (has_name(old(out)@, n) || container_env_var_ref(*c, n)),
{
    let mut j: usize = 0;
    while j < c.env.len()
        invariant
            j <= c.env@.len(),
            unique_names(out@),
            forall|n: Seq<char>| #![trigger has_name(out@, n)]
                has_name(out@, n) <==> (has_name(old(out)@, n)
                    || exists|u: int| 0 <= u < j && env_var_entry_ref(#[trigger] c.env@[u], n)),
        decreases c.env@.len() - j,
    {
        let ghost before = out@;
        match &c.env[j].config_map_key_ref {
            Some(rf) => {
                push_unique(out, rf.name.clone());
            }
            None => {}
        }
        proof {
            assert forall|n: Seq<char>| #![trigger has_name(out@, n)]
                has_name(out@, n) <==> (has_name(old(out)@, n)
                    || exists|u: int| 0 <= u < j + 1 && env_var_entry_ref(c.env@[u], n)) by {
                if env_var_entry_ref(c.env@[j as int], n) {
                    assert(has_name(out@, n));
                }
                if has_name(out@, n) && !has_name(before, n) {
                    assert(env_var_entry_ref(c.env@[j as int], n));
                }
                if exists|u: int| 0 <= u < j && env_var_entry_ref(c.env@[u], n) {
                    let u = choose|u: int| 0 <= u < j && env_var_entry_ref(c.env@[u], n);
                    assert(env_var_entry_ref(c.env@[u], n) && 0 <= u < j + 1);
                }
            }
        }
        j += 1;
    }
}

/// Adds to `out` every ConfigMap name injected wholesale into the
/// environment of the container `c`.
fn collect_env_from_refs(c: &Container, out: &mut Vec<String>)
    requires
        unique_names(old(out)@),
    ensures
        unique_names(final(out)@),
        forall|n: Seq<char>| #![trigger has_name(final(out)@, n)]
            has_name(final(out)@, n) <==> (has_name(old(out)@, n) || container_env_from_ref(*c, n)),
{
    let mut j: usize = 0;
    while j < c.env_from.len()
        invariant
            j <= c.env_from@.len(),
            unique_names(out@),
            forall|n: Seq<char>| #![trigger has_name(out@, n)]
                has_name(out@, n) <==> (has_name(old(out)@, n)
                    || exists|u: int| 0 <= u < j && env_from_entry_ref(#[trigger] c.env_from@[u], n)),
        decreases c.env_from@.len() - j,
    {
        let ghost before = out@;
        match &c.env_from[j].config_map_ref {
            Some(nm) => {
                push_unique(out, nm.clone());
            }
            None => {}
        }
        proof {
            assert forall|n: Seq<char>| #![trigger has_name(out@, n)]
                has_name(out@, n) <==> (has_name(old(out)@, n)
                    || exists|u: int| 0 <= u < j + 1 && env_from_entry_ref(c.env_from@[u], n)) by {
                if env_from_entry_ref(c.env_from@[j as int], n) {
                    assert(has_name(out@, n));
                }
                if has_name(out@, n) && !has_name(before, n) {
                    assert(env_from_entry_ref(c.env_from@[j as int], n));
                }
                if exists|u: int| 0 <= u < j && env_from_entry_ref(c.env_from@[u], n) {
                    let u = choose|u: int| 0 <= u < j && env_from_entry_ref(c.env_from@[u], n);
                    assert(env_from_entry_ref(c.env_from@[u], n) && 0 <= u < j + 1);
                }
            }
        }
        j += 1;
    }
}

/// Adds to `out` every ConfigMap name read by a source of the projected
/// volume `v`; a volume without a projected part contributes nothing.
fn collect_projection_refs(v: &Volume, out: &mut Vec<String>)
    requires
        unique_names(old(out)@),
    ensures
        unique_names(final(out)@),
        forall|n: Seq<char>| #![trigger has_name(final(out)@, n)]
            has_name(final(out)@, n) <==> (has_name(old(out)@, n) || volume_projected_ref(*v, n)),
{
    match &v.projected {
        Some(ps) => {
            let mut j: usize = 0;
            while j < ps.len()
                invariant
                    j <= ps@.len(),
                    unique_names(out@),
                    v.projected matches Some(q) && q@ == ps@,
                    forall|n: Seq<char>| #![trigger has_name(out@, n)]
                        has_name(out@, n) <==> (has_name(old(out)@, n)
                            || exists|u: int| 0 <= u < j && projection_ref(#[trigger] ps@[u], n)),
                decreases ps@.len() - j,
            {
                let ghost before = out@;
                match &ps[j].config_map {
                    Some(nm) => {
                        push_unique(out, nm.clone());
                    }
                    None => {}
                }
                proof {
                    assert forall|n: Seq<char>| #![trigger has_name(out@, n)]
                        has_name(out@, n) <==> (has_name(old(out)@, n)
                            || exists|u: int| 0 <= u < j + 1 && projection_ref(ps@[u], n)) by {
                        if projection_ref(ps@[j as int], n) {
                            assert(has_name(out@, n));
                        }
                        if has_name(out@, n) && !has_name(before, n) {
                            assert(projection_ref(ps@[j as int], n));
                        }
                        if exists|u: int| 0 <= u < j && projection_ref(ps@[u], n) {
                            let u = choose|u: int| 0 <= u < j && projection_ref(ps@[u], n);
                            assert(projection_ref(ps@[u], n) && 0 <= u < j + 1);
                        }
                    }
                }
                j += 1;
            }
        }
        None => {}
    }
}

/// The env-var pass: every ConfigMap name referenced by an environment
/// variable key reference anywhere in the template.
pub fn extract_config_maps_from_env_vars(pod_spec: &PodTemplate) -> (r: Vec<String>)
    ensures
        unique_names(r@),
        forall|n: Seq<char>| #![trigger has_name(r@, n)]
            has_name(r@, n) <==> template_env_var_refs(*pod_spec, n),
{
    let mut out: Vec<String> = Vec::new();
    let mut i: usize = 0;
    while i < pod_spec.containers.len()
        invariant
            i <= pod_spec.containers@.len(),
            unique_names(out@),
            forall|n: Seq<char>| #![trigger has_name(out@, n)]
                has_name(out@, n) <==> exists|t: int| 0 <= t < i
                    && container_env_var_ref(#[trigger] pod_spec.containers@[t], n),
        decreases pod_spec.containers@.len() - i,
    {
        let ghost before = out@;
        collect_env_var_refs(&pod_spec.containers[i], &mut out);
        proof {
            assert forall|n: Seq<char>| #![trigger has_name(out@, n)]
                has_name(out@, n) <==> exists|t: int| 0 <= t < i + 1
                    && container_env_var_ref(pod_spec.containers@[t], n) by {
                if container_env_var_ref(pod_spec.containers@[i as int], n) {
                    assert(has_name(out@, n));
                }
                if exists|t: int| 0 <= t < i && container_env_var_ref(pod_spec.containers@[t], n) {
                    let t = choose|t: int| 0 <= t < i
                        && container_env_var_ref(pod_spec.containers@[t], n);
                    assert(container_env_var_ref(pod_spec.containers@[t], n) && 0 <= t < i + 1);
                }
            }
        }
        i += 1;
    }
    out
}

/// The env-from pass: every ConfigMap name injected wholesale into some
/// container's environment.
pub fn extract_config_maps_from_env_from(pod_spec: &PodTemplate) -> (r: Vec<String>)
    ensures
        unique_names(r@),
        forall|n: Seq<char>| #![trigger has_name(r@, n)]
            has_name(r@, n) <==> template_env_from_refs(*pod_spec, n),
{
    let mut out: Vec<String> = Vec::new();
    let mut i: usize = 0;
    while i < pod_spec.containers.len()
        invariant
            i <= pod_spec.containers@.len(),
            unique_names(out@),
            forall|n: Seq<char>| #![trigger has_name(out@, n)]
                has_name(out@, n) <==> exists|t: int| 0 <= t < i
                    && container_env_from_ref(#[trigger] pod_spec.containers@[t], n),
        decreases pod_spec.containers@.len() - i,
    {
        let ghost before = out@;
        collect_env_from_refs(&pod_spec.containers[i], &mut out);
        proof {
            assert forall|n: Seq<char>| #![trigger has_name(out@, n)]
                has_name(out@, n) <==> exists|t: int| 0 <= t < i + 1
                    && container_env_from_ref(pod_spec.containers@[t], n) by {
                if container_env_from_ref(pod_spec.containers@[i as int], n) {
                    assert(has_name(out@, n));
                }
                if exists|t: int| 0 <= t < i && container_env_from_ref(pod_spec.containers@[t], n) {
                    let t = choose|t: int| 0 <= t < i
                        && container_env_from_ref(pod_spec.containers@[t], n);
                    assert(container_env_from_ref(pod_spec.containers@[t], n) && 0 <= t < i + 1);
                }
            }
        }
        i += 1;
    }
    out
}

/// The volume pass: every ConfigMap name mounted directly by a volume of
/// the template.
pub fn extract_config_maps_from_volumes(pod_spec: &PodTemplate) -> (r: Vec<String>)
    ensures
        unique_names(r@),
        forall|n: Seq<char>| #![trigger has_name(r@, n)]
            has_name(r@, n) <==> template_volume_refs(*pod_spec, n),
{
    let mut out: Vec<String> = Vec::new();
    let mut i: usize = 0;
    while i < pod_spec.volumes.len()
        invariant
            i <= pod_spec.volumes@.len(),
            unique_names(out@),
            forall|n: Seq<char>| #![trigger has_name(out@, n)]
                has_name(out@, n) <==> exists|t: int| 0 <= t < i
                    && volume_direct_ref(#[trigger] pod_spec.volumes@[t], n),
        decreases pod_spec.volumes@.len() - i,
    {
        let ghost before = out@;
        match &pod_spec.volumes[i].config_map {
            Some(nm) => {
                push_unique(&mut out, nm.clone());
            }
            None => {}
        }
        proof {
            assert forall|n: Seq<char>| #![trigger has_name(out@, n)]
                has_name(out@, n) <==> exists|t: int| 0 <= t < i + 1
                    && volume_direct_ref(pod_spec.volumes@[t], n) by {
                if volume_direct_ref(pod_spec.volumes@[i as int], n) {
                    assert(has_name(out@, n));
                }
                if has_name(out@, n) && !has_name(before, n) {
                    assert(volume_direct_ref(pod_spec.volumes@[i as int], n));
                }
                if exists|t: int| 0 <= t < i && volume_direct_ref(pod_spec.volumes@[t], n) {
                    let t = choose|t: int| 0 <= t < i && volume_direct_ref(pod_spec.volumes@[t], n);
                    assert(volume_direct_ref(pod_spec.volumes@[t], n) && 0 <= t < i + 1);
                }
            }
        }
        i += 1;
    }
    out
}

/// The projected-volume pass: every ConfigMap name read by a projection
/// source of some projected volume of the template.
pub fn extract_config_maps_from_projected_volumes(pod_spec: &PodTemplate) -> (r: Vec<String>)
    ensures
        unique_names(r@),
        forall|n: Seq<char>| #![trigger has_name(r@, n)]
            has_name(r@, n) <==> template_projected_refs(*pod_spec, n),
{
    let mut out: Vec<String> = Vec::new();
    let mut i: usize = 0;
    while i < pod_spec.volumes.len()
        invariant
            i <= pod_spec.volumes@.len(),
            unique_names(out@),
            forall|n: Seq<char>| #![trigger has_name(out@, n)]
                has_name(out@, n) <==> exists|t: int| 0 <= t < i
                    && volume_projected_ref(#[trigger] pod_spec.volumes@[t], n),
        decreases pod_spec.volumes@.len() - i,
    {
        let ghost before = out@;
        collect_projection_refs(&pod_spec.volumes[i], &mut out);
        proof {
            assert forall|n: Seq<char>| #![trigger has_name(out@, n)]
                has_name(out@, n) <==> exists|t: int| 0 <= t < i + 1
                    && volume_projected_ref(pod_spec.volumes@[t], n) by {
                if volume_projected_ref(pod_spec.volumes@[i as int], n) {
                    assert(has_name(out@, n));
                }
                if exists|t: int| 0 <= t < i && volume_projected_ref(pod_spec.volumes@[t], n) {
                    let t = choose|t: int| 0 <= t < i
                        && volume_projected_ref(pod_spec.volumes@[t], n);
                    assert(volume_projected_ref(pod_spec.volumes@[t], n) && 0 <= t < i + 1);
                }
            }
        }
        i += 1;
    }
    out
}

/// The set of ConfigMap names the template references: the union of the
/// four extraction passes.
pub fn extract_config_maps_from(pod_spec: &PodTemplate) -> (r: Vec<String>)
    ensures
        unique_names(r@),
        forall|n: Seq<char>| #![trigger has_name(r@, n)]
            has_name(r@, n) <==> template_references(*pod_spec, n),
{
    let mut out = extract_config_maps_from_env_vars(pod_spec);
    let from_env_from = extract_config_maps_from_env_from(pod_spec);
    let from_volumes = extract_config_maps_from_volumes(pod_spec);
    let from_projected = extract_config_maps_from_projected_volumes(pod_spec);
    extend_unique(&mut out, &from_env_from);
    extend_unique(&mut out, &from_volumes);
    extend_unique(&mut out, &from_projected);
    out
}

/// The union of the reference sets of all given workloads: the "used" set.
/// A workload whose pod template is absent contributes nothing.
pub fn get_config_map_references(resources: &Vec<Workload>) -> (r: Vec<String>)
    ensures
        unique_names(r@),
        forall|n: Seq<char>| #![trigger has_name(r@, n)]
            has_name(r@, n) <==> spec_used(resources@, n),
{
    let mut out: Vec<String> = Vec::new();
    let mut k: usize = 0;
    while k < resources.len()
        invariant
            k <= resources@.len(),
            unique_names(out@),
            forall|n: Seq<char>| #![trigger has_name(out@, n)]
                has_name(out@, n) <==> exists|t: int| 0 <= t < k
                    && workload_references(#[trigger] resources@[t], n),
        decreases resources@.len() - k,
    {
        let ghost before = out@;
        match resources[k].body.pod_spec() {
            Some(pt) => {
                let refs = extract_config_maps_from(pt);
                extend_unique(&mut out, &refs);
            }
            None => {}
        }
        proof {
            assert forall|n: Seq<char>| #![trigger has_name(out@, n)]
                has_name(out@, n) <==> exists|t: int| 0 <= t < k + 1
                    && workload_references(resources@[t], n) by {
                if workload_references(resources@[k as int], n) {
                    assert(has_name(out@, n));
                }
                if has_name(out@, n) && !has_name(before, n) {
                    assert(workload_references(resources@[k as int], n));
                }
                if exists|t: int| 0 <= t < k && workload_references(resources@[t], n) {
                    let t = choose|t: int| 0 <= t < k && workload_references(resources@[t], n);
                    assert(workload_references(resources@[t], n) && 0 <= t < k + 1);
                }
            }
        }
        k += 1;
    }
    out
}

/// Keeps exactly the workloads with no owning controller, in their order of
/// arrival. Controller-managed objects are dropped, since their templates
/// are already captured by their parents.
pub fn get_ownerless_resources(resources: Vec<Workload>) -> (r: Vec<Workload>)
    ensures
        r@ == resources@.filter(|w: Workload| w.spec_ownerless()),
{
    let ghost all = resources@;
    let mut rest = resources;
    let mut out: Vec<Workload> = Vec::new();
    let ghost mut done: Seq<Workload> = Seq::empty();
    proof {
        reveal(Seq::filter);
        assert(done.filter(|x: Workload| x.spec_ownerless()) =~= Seq::<Workload>::empty());
    }
    while rest.len() > 0
        invariant
            all == done + rest@,
            out@ == done.filter(|x: Workload| x.spec_ownerless()),
        decreases rest@.len(),
    {
        let ghost prev_rest = rest@;
        let ghost prev_done = done;
        let w = rest.remove(0);
        let ghost wv = w;
        let keep = w.owner_references.len() == 0;
        if keep {
            out.push(w);
        }
        proof {
            done = prev_done + seq![wv];
            lemma_ownerless_filter_one(prev_done, wv);
            assert(prev_rest =~= seq![wv] + rest@);
            assert(all =~= done + rest@);
            if keep {
                assert(out@ =~= prev_done.filter(|x: Workload| x.spec_ownerless()) + seq![wv]);
            }
        }
    }
    proof {
        assert(done =~= all);
    }
    out
}

/// Appending one workload to a sequence extends its ownerless filtering by
/// that workload exactly when the workload is ownerless.
proof fn lemma_ownerless_filter_one(s: Seq<Workload>, w: Workload)
    ensures
        (s + seq![w]).filter(|x: Workload| x.spec_ownerless()) == if w.spec_ownerless() {
            s.filter(|x: Workload| x.spec_ownerless()) + seq![w]
        } else {
            s.filter(|x: Workload| x.spec_ownerless())
        },
{
    reveal(Seq::filter);
    let pred = (|x: Workload| x.spec_ownerless());
    let ext = s + seq![w];
    assert(ext.drop_last() =~= s);
    assert(ext.last() == w);
    assert(ext.filter(pred) == if pred(ext.last()) {
        ext.drop_last().filter(pred).push(ext.last())
    } else {
        ext.drop_last().filter(pred)
    });
    if pred(w) {
        assert(s.filter(pred).push(w) =~= s.filter(pred) + seq![w]);
    }
}

} // verus!
