//! The cluster objects as the reconciliation core reads them.
//!
//! A workload is anything that embeds a pod template: the template itself
//! carries the containers and volumes through which a ConfigMap can be
//! consumed. The nesting mirrors the API objects, so that a template may
//! legally be absent at any level of the path that reaches it; an absent
//! template contributes no references rather than failing the run.

use vstd::prelude::*;

verus! {

/// A reference from an environment variable definition to one key of a
/// ConfigMap.
pub struct ConfigMapKeyRef {
    /// Name of the referenced ConfigMap.
    pub name: String,
    /// Key inside that ConfigMap.
    pub key: String,
}

/// One environment variable definition of a container.
pub struct EnvVarDef {
    pub name: String,
    /// Set when the variable draws its value from a ConfigMap key.
    pub config_map_key_ref: Option<ConfigMapKeyRef>,
}

/// One bulk environment source of a container.
pub struct EnvFromSource {
    /// Set when the source injects an entire ConfigMap.
    pub config_map_ref: Option<String>,
}

/// One source of a projected volume.
pub struct VolumeProjection {
    /// Set when the projection reads a ConfigMap.
    pub config_map: Option<String>,
}

/// A volume of a pod template.
pub struct Volume {
    pub name: String,
    /// Set when the volume mounts a ConfigMap directly.
    pub config_map: Option<String>,
    /// Set when the volume is a projected volume.
    pub projected: Option<Vec<VolumeProjection>>,
}

/// A container of a pod template.
pub struct Container {
    pub name: String,
    pub env: Vec<EnvVarDef>,
    pub env_from: Vec<EnvFromSource>,
}

/// The pod template embedded in a workload: all reference extraction walks
/// this structure.
pub struct PodTemplate {
    pub containers: Vec<Container>,
    pub volumes: Vec<Volume>,
}

/// The template slot of a workload spec; the pod template itself may be
/// absent.
pub struct PodTemplateSpec {
    pub spec: Option<PodTemplate>,
}

/// The spec shared by the kinds whose template slot is always present:
/// Deployment, StatefulSet, DaemonSet and Job.
pub struct TemplatedSpec {
    pub template: PodTemplateSpec,
}

/// The spec of a ReplicaSet, whose template slot may itself be absent.
pub struct ReplicaSetSpec {
    pub template: Option<PodTemplateSpec>,
}

/// The job template of a CronJob, holding an optional job spec.
pub struct JobTemplateSpec {
    pub spec: Option<TemplatedSpec>,
}

/// The spec of a CronJob: the pod template sits behind the nested job
/// template.
pub struct CronJobSpec {
    pub job_template: JobTemplateSpec,
}

/// The kind-specific part of a workload: each variant carries the path that
/// reaches its embedded pod template.
pub enum WorkloadBody {
    Pod { spec: Option<PodTemplate> },
    Deployment { spec: Option<TemplatedSpec> },
    ReplicaSet { spec: Option<ReplicaSetSpec> },
    StatefulSet { spec: Option<TemplatedSpec> },
    DaemonSet { spec: Option<TemplatedSpec> },
    CronJob { spec: Option<CronJobSpec> },
    Job { spec: Option<TemplatedSpec> },
}

/// A workload object as fetched from the cluster.
pub struct Workload {
    pub name: String,
    pub namespace: Option<String>,
    /// Names of the owning controllers; empty means ownerless.
    pub owner_references: Vec<String>,
    pub body: WorkloadBody,
}

impl WorkloadBody {
    /// The embedded pod template, or `None` where any link of the path to
    /// it is absent.
    pub open spec fn spec_pod_spec(self) -> Option<PodTemplate> {
        match self {
            WorkloadBody::Pod { spec } => spec,
            WorkloadBody::Deployment { spec } => match spec {
                Some(s) => s.template.spec,
                None => None,
            },
            WorkloadBody::ReplicaSet { spec } => match spec {
                Some(s) => match s.template {
                    Some(t) => t.spec,
                    None => None,
                },
                None => None,
            },
            WorkloadBody::StatefulSet { spec } => match spec {
                Some(s) => s.template.spec,
                None => None,
            },
            WorkloadBody::DaemonSet { spec } => match spec {
                Some(s) => s.template.spec,
                None => None,
            },
            WorkloadBody::CronJob { spec } => match spec {
                Some(s) => match s.job_template.spec {
                    Some(js) => js.template.spec,
                    None => None,
                },
                None => None,
            },
            WorkloadBody::Job { spec } => match spec {
                Some(s) => s.template.spec,
                None => None,
            },
        }
    }

    /// Walks the kind-specific path to the embedded pod template; an absent
    /// link anywhere yields `None` instead of failing.
    pub fn pod_spec(&self) -> (r: Option<&PodTemplate>)
        ensures
            match r {
                Some(t) => self.spec_pod_spec() == Some(*t),
                None => self.spec_pod_spec() is None,
            },
    {
        match self {
            WorkloadBody::Pod { spec } => spec.as_ref(),
            WorkloadBody::Deployment { spec } => match spec {
                Some(s) => s.template.spec.as_ref(),
                None => None,
            },
            WorkloadBody::ReplicaSet { spec } => match spec {
                Some(s) => match &s.template {
                    Some(t) => t.spec.as_ref(),
                    None => None,
                },
                None => None,
            },
            WorkloadBody::StatefulSet { spec } => match spec {
                Some(s) => s.template.spec.as_ref(),
                None => None,
            },
            WorkloadBody::DaemonSet { spec } => match spec {
                Some(s) => s.template.spec.as_ref(),
                None => None,
            },
            WorkloadBody::CronJob { spec } => match spec {
                Some(s) => match &s.job_template.spec {
                    Some(js) => js.template.spec.as_ref(),
                    None => None,
                },
                None => None,
            },
            WorkloadBody::Job { spec } => match spec {
                Some(s) => s.template.spec.as_ref(),
                None => None,
            },
        }
    }
}

impl Workload {
    /// A workload with no owning controller reference: a candidate for
    /// being a manually created object rather than controller-managed.
    pub open spec fn spec_ownerless(self) -> bool {
        self.owner_references@.len() == 0
    }
}

} // verus!
