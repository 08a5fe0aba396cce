use kubeclean::extract::get_ownerless_resources;
use kubeclean::model::{ConfigMapKeyRef, Container, CronJobSpec, EnvFromSource, EnvVarDef,
    JobTemplateSpec, PodTemplate, PodTemplateSpec, ReplicaSetSpec, TemplatedSpec, Volume,
    VolumeProjection, Workload, WorkloadBody};
use kubeclean::reconcile::{clean_config_maps, CleanError, CleanOutcome};

fn names(v: &[&str]) -> Vec<String> {
    v.iter().map(|s| s.to_string()).collect()
}

fn sorted(mut v: Vec<String>) -> Vec<String> {
    v.sort();
    v
}

fn container_with_env_var(cm: &str) -> Container {
    Container {
        name: "main".to_string(),
        env: vec![EnvVarDef {
            name: "SETTING".to_string(),
            config_map_key_ref: Some(ConfigMapKeyRef {
                name: cm.to_string(),
                key: "setting".to_string(),
            }),
        }],
        env_from: vec![],
    }
}

fn container_with_env_from(cm: &str) -> Container {
    Container {
        name: "main".to_string(),
        env: vec![],
        env_from: vec![EnvFromSource { config_map_ref: Some(cm.to_string()) }],
    }
}

fn template_with_container(c: Container) -> PodTemplate {
    PodTemplate { containers: vec![c], volumes: vec![] }
}

fn template_with_volume(v: Volume) -> PodTemplate {
    PodTemplate { containers: vec![], volumes: vec![v] }
}

fn templated_spec(pt: PodTemplate) -> TemplatedSpec {
    TemplatedSpec { template: PodTemplateSpec { spec: Some(pt) } }
}

fn workload(name: &str, body: WorkloadBody) -> Workload {
    Workload {
        name: name.to_string(),
        namespace: Some("default".to_string()),
        owner_references: vec![],
        body,
    }
}

fn deployment(name: &str, pt: PodTemplate) -> Workload {
    workload(name, WorkloadBody::Deployment { spec: Some(templated_spec(pt)) })
}

fn cron_job(name: &str, pt: PodTemplate) -> Workload {
    workload(
        name,
        WorkloadBody::CronJob {
            spec: Some(CronJobSpec {
                job_template: JobTemplateSpec { spec: Some(templated_spec(pt)) },
            }),
        },
    )
}

fn scan(
    declared: &[&str],
    workloads: &Vec<Workload>,
    dry_run: bool,
    filter: Option<&str>,
    inverse_filter: bool,
) -> Result<CleanOutcome, CleanError> {
    let declared = names(declared);
    let filter = filter.map(|p| p.to_string());
    clean_config_maps(&declared, workloads, dry_run, &filter, inverse_filter)
}

#[test]
fn unreferenced_config_map_is_a_candidate() {
    let workloads = vec![deployment("app", template_with_container(container_with_env_from("app-config")))];
    let outcome = scan(&["app-config", "unused-cm", "kube-root-ca.crt"], &workloads, true, None, false).unwrap();
    assert_eq!(outcome.candidates, names(&["unused-cm"]));
}

#[test]
fn scan_is_idempotent_on_unchanged_state() {
    let workloads = vec![
        deployment("app", template_with_container(container_with_env_from("app-config"))),
        cron_job("job", template_with_volume(Volume {
            name: "data".to_string(),
            config_map: Some("cron-cm".to_string()),
            projected: None,
        })),
    ];
    let declared = ["app-config", "cron-cm", "stale-a", "stale-b"];
    let first = scan(&declared, &workloads, true, None, false).unwrap();
    let second = scan(&declared, &workloads, true, None, false).unwrap();
    assert_eq!(first.candidates, second.candidates);
    assert_eq!(sorted(first.candidates), names(&["stale-a", "stale-b"]));
}

#[test]
fn env_var_reference_excludes_from_candidates() {
    let workloads = vec![deployment("app", template_with_container(container_with_env_var("env-cm")))];
    let outcome = scan(&["env-cm", "other"], &workloads, true, None, false).unwrap();
    assert_eq!(outcome.used, names(&["env-cm"]));
    assert_eq!(outcome.candidates, names(&["other"]));
}

#[test]
fn env_from_reference_excludes_from_candidates() {
    let workloads = vec![deployment("app", template_with_container(container_with_env_from("bulk-cm")))];
    let outcome = scan(&["bulk-cm", "other"], &workloads, true, None, false).unwrap();
    assert_eq!(outcome.used, names(&["bulk-cm"]));
    assert_eq!(outcome.candidates, names(&["other"]));
}

#[test]
fn volume_reference_excludes_from_candidates() {
    let volume = Volume {
        name: "config".to_string(),
        config_map: Some("vol-cm".to_string()),
        projected: None,
    };
    let workloads = vec![deployment("app", template_with_volume(volume))];
    let outcome = scan(&["vol-cm", "other"], &workloads, true, None, false).unwrap();
    assert_eq!(outcome.used, names(&["vol-cm"]));
    assert_eq!(outcome.candidates, names(&["other"]));
}

#[test]
fn projected_volume_reference_excludes_from_candidates() {
    let volume = Volume {
        name: "bundle".to_string(),
        config_map: None,
        projected: Some(vec![
            VolumeProjection { config_map: None },
            VolumeProjection { config_map: Some("proj-cm".to_string()) },
        ]),
    };
    let workloads = vec![deployment("app", template_with_volume(volume))];
    let outcome = scan(&["proj-cm", "other"], &workloads, true, None, false).unwrap();
    assert_eq!(outcome.used, names(&["proj-cm"]));
    assert_eq!(outcome.candidates, names(&["other"]));
}

#[test]
fn cron_job_projected_volume_is_found_through_nested_template() {
    let volume = Volume {
        name: "bundle".to_string(),
        config_map: None,
        projected: Some(vec![VolumeProjection { config_map: Some("cron-cm".to_string()) }]),
    };
    let workloads = vec![cron_job("nightly", template_with_volume(volume))];
    let outcome = scan(&["cron-cm", "unused-cm"], &workloads, true, None, false).unwrap();
    assert_eq!(outcome.used, names(&["cron-cm"]));
    assert_eq!(outcome.candidates, names(&["unused-cm"]));
}

#[test]
fn root_ca_is_never_a_candidate() {
    let workloads: Vec<Workload> = vec![];
    let outcome = scan(&["kube-root-ca.crt"], &workloads, true, None, false).unwrap();
    assert!(outcome.candidates.is_empty());
    assert!(outcome.to_delete.is_empty());
}

#[test]
fn filter_keeps_exactly_matching_names() {
    let workloads: Vec<Workload> = vec![];
    let outcome = scan(&["temp-a", "temp-b", "other"], &workloads, true, Some("^temp-"), false)
        .unwrap();
    assert_eq!(sorted(outcome.candidates), names(&["temp-a", "temp-b"]));
}

#[test]
fn inverse_filter_keeps_exactly_non_matching_names() {
    let workloads: Vec<Workload> = vec![];
    let outcome = scan(&["temp-a", "temp-b", "other"], &workloads, true, Some("^temp-"), true)
        .unwrap();
    assert_eq!(outcome.candidates, names(&["other"]));
}

#[test]
fn invalid_filter_pattern_is_a_fatal_error() {
    let workloads: Vec<Workload> = vec![];
    let result = scan(&["anything"], &workloads, false, Some("foo(bar"), false);
    assert!(matches!(result, Err(CleanError::InvalidFilter)));
}

#[test]
fn dry_run_hands_nothing_to_deletion() {
    let workloads: Vec<Workload> = vec![];
    let outcome = scan(&["stale-a", "stale-b"], &workloads, true, None, false).unwrap();
    assert_eq!(sorted(outcome.candidates), names(&["stale-a", "stale-b"]));
    assert!(outcome.to_delete.is_empty());
}

#[test]
fn live_run_hands_all_candidates_to_deletion() {
    let workloads: Vec<Workload> = vec![];
    let outcome = scan(&["stale-a", "stale-b"], &workloads, false, None, false).unwrap();
    assert_eq!(outcome.to_delete, outcome.candidates);
    assert_eq!(sorted(outcome.to_delete), names(&["stale-a", "stale-b"]));
}

#[test]
fn declared_names_are_deduplicated() {
    let workloads: Vec<Workload> = vec![];
    let outcome = scan(&["dup", "dup", "single"], &workloads, true, None, false).unwrap();
    assert_eq!(sorted(outcome.declared), names(&["dup", "single"]));
    assert_eq!(sorted(outcome.candidates), names(&["dup", "single"]));
}

#[test]
fn empty_cluster_yields_empty_outcome() {
    let workloads: Vec<Workload> = vec![];
    let outcome = scan(&[], &workloads, false, None, false).unwrap();
    assert!(outcome.declared.is_empty());
    assert!(outcome.used.is_empty());
    assert!(outcome.candidates.is_empty());
    assert!(outcome.to_delete.is_empty());
}

#[test]
fn workload_without_reachable_template_contributes_nothing() {
    let workloads = vec![
        workload("bare", WorkloadBody::Deployment { spec: None }),
        workload("no-template", WorkloadBody::ReplicaSet {
            spec: Some(ReplicaSetSpec { template: None }),
        }),
        workload("no-pod-spec", WorkloadBody::Pod { spec: None }),
    ];
    let outcome = scan(&["lonely"], &workloads, true, None, false).unwrap();
    assert!(outcome.used.is_empty());
    assert_eq!(outcome.candidates, names(&["lonely"]));
}

#[test]
fn every_workload_kind_reaches_its_template() {
    let bodies = vec![
        WorkloadBody::Pod {
            spec: Some(template_with_container(container_with_env_from("pod-cm"))),
        },
        WorkloadBody::Deployment {
            spec: Some(templated_spec(template_with_container(container_with_env_from("dep-cm")))),
        },
        WorkloadBody::ReplicaSet {
            spec: Some(ReplicaSetSpec {
                template: Some(PodTemplateSpec {
                    spec: Some(template_with_container(container_with_env_from("rs-cm"))),
                }),
            }),
        },
        WorkloadBody::StatefulSet {
            spec: Some(templated_spec(template_with_container(container_with_env_from("sts-cm")))),
        },
        WorkloadBody::DaemonSet {
            spec: Some(templated_spec(template_with_container(container_with_env_from("ds-cm")))),
        },
        WorkloadBody::CronJob {
            spec: Some(CronJobSpec {
                job_template: JobTemplateSpec {
                    spec: Some(templated_spec(template_with_container(container_with_env_from(
                        "cj-cm",
                    )))),
                },
            }),
        },
        WorkloadBody::Job {
            spec: Some(templated_spec(template_with_container(container_with_env_from("job-cm")))),
        },
    ];
    let workloads: Vec<Workload> =
        bodies.into_iter().enumerate().map(|(i, b)| workload(&format!("w{i}"), b)).collect();
    let declared = ["pod-cm", "dep-cm", "rs-cm", "sts-cm", "ds-cm", "cj-cm", "job-cm", "spare"];
    let outcome = scan(&declared, &workloads, true, None, false).unwrap();
    assert_eq!(sorted(outcome.used), sorted(names(&declared[..7])));
    assert_eq!(outcome.candidates, names(&["spare"]));
}

#[test]
fn ownerless_filter_drops_owned_workloads() {
    let mut owned = workload("owned", WorkloadBody::Pod { spec: None });
    owned.owner_references = vec!["some-replicaset".to_string()];
    let free = workload("free", WorkloadBody::Pod { spec: None });
    let kept = get_ownerless_resources(vec![owned, free]);
    assert_eq!(kept.len(), 1);
    assert_eq!(kept[0].name, "free");
}

#[test]
fn used_set_spans_all_workloads() {
    let workloads = vec![
        deployment("a", template_with_container(container_with_env_var("shared-cm"))),
        deployment("b", template_with_container(container_with_env_from("shared-cm"))),
    ];
    let outcome = scan(&["shared-cm"], &workloads, true, None, false).unwrap();
    assert_eq!(outcome.used, names(&["shared-cm"]));
    assert!(outcome.candidates.is_empty());
}
