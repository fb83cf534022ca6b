//! Models of the child resources a node owns.
//!
//! Each type holds exactly what the reconciliation logic reads and writes of
//! the corresponding platform object: a storage claim, a configuration
//! bundle, a workload (stateful or replicated), a network endpoint and an
//! autoscaler.  The process around the library converts these to and from
//! the platform's native objects.

use vstd::prelude::*;
use crate::types::{KeyValue, KeyValueView, ResourceSpec, ResourceSpecView, StringView};
use crate::labels::{OwnerReference, OwnerReferenceView};

verus! {

// ============================================================================
// Storage claim
// ============================================================================

/// A persistent storage claim; one per node, created once and treated as
/// materially immutable thereafter.
#[derive(Clone, Debug, PartialEq, Eq)]
pub struct PvcResource {
    pub name: String,
    pub labels: Vec<KeyValue>,
    /// Extra annotations from the storage configuration; absent when none
    /// were declared.
    pub annotations: Option<Vec<KeyValue>>,
    pub owner: OwnerReference,
    /// The single access mode requested.
    pub access_mode: String,
    pub storage_class: String,
    /// Requested storage quantity.
    pub size: String,
}

/// Spec-level view of a storage claim.
#[verifier::ext_equal]
pub struct PvcResourceView {
    pub name: StringView,
    pub labels: Seq<KeyValueView>,
    pub annotations: Option<Seq<KeyValueView>>,
    pub owner: OwnerReferenceView,
    pub access_mode: StringView,
    pub storage_class: StringView,
    pub size: StringView,
}

impl View for PvcResource {
    type V = PvcResourceView;

    open spec fn view(&self) -> PvcResourceView {
        PvcResourceView {
            name: self.name@,
            labels: self.labels.deep_view(),
            annotations: self.annotations.deep_view(),
            owner: self.owner@,
            access_mode: self.access_mode@,
            storage_class: self.storage_class@,
            size: self.size@,
        }
    }
}

// ============================================================================
// Configuration bundle
// ============================================================================

/// A configuration bundle: a key/value map fully regenerated from the spec
/// on every reconcile.
#[derive(Clone, Debug, PartialEq, Eq)]
pub struct ConfigMapResource {
    pub name: String,
    pub labels: Vec<KeyValue>,
    pub owner: OwnerReference,
    pub data: Vec<KeyValue>,
}

/// Spec-level view of a configuration bundle.
#[verifier::ext_equal]
pub struct ConfigMapResourceView {
    pub name: StringView,
    pub labels: Seq<KeyValueView>,
    pub owner: OwnerReferenceView,
    pub data: Seq<KeyValueView>,
}

impl View for ConfigMapResource {
    type V = ConfigMapResourceView;

    open spec fn view(&self) -> ConfigMapResourceView {
        ConfigMapResourceView {
            name: self.name@,
            labels: self.labels.deep_view(),
            owner: self.owner@,
            data: self.data.deep_view(),
        }
    }
}

// ============================================================================
// Container and pod template
// ============================================================================

/// The value of one container environment variable: either a literal, or a
/// reference to one key of a secret (credentials are never copied inline).
#[derive(Clone, Debug, PartialEq, Eq)]
pub enum EnvValue {
    Literal(String),
    SecretRef { name: String, key: String },
}

/// Spec-level view of an environment variable value.
#[verifier::ext_equal]
pub enum EnvValueView {
    Literal(StringView),
    SecretRef { name: StringView, key: StringView },
}

impl View for EnvValue {
    type V = EnvValueView;

    open spec fn view(&self) -> EnvValueView {
        match self {
            EnvValue::Literal(s) => EnvValueView::Literal(s@),
            EnvValue::SecretRef { name, key } => EnvValueView::SecretRef {
                name: name@,
                key: key@,
            },
        }
    }
}

/// One container environment variable.
#[derive(Clone, Debug, PartialEq, Eq)]
pub struct EnvVar {
    pub name: String,
    pub value: EnvValue,
}

/// Spec-level view of an environment variable.
#[verifier::ext_equal]
pub struct EnvVarView {
    pub name: StringView,
    pub value: EnvValueView,
}

impl View for EnvVar {
    type V = EnvVarView;

    open spec fn view(&self) -> EnvVarView {
        EnvVarView { name: self.name@, value: self.value@ }
    }
}

impl DeepView for EnvVar {
    type V = EnvVarView;

    open spec fn deep_view(&self) -> EnvVarView {
        self.view()
    }
}

/// The single container a node's pods run.
#[derive(Clone, Debug, PartialEq, Eq)]
pub struct ContainerSpec {
    pub name: String,
    pub image: String,
    /// The container port exposed.
    pub port: i32,
    pub env: Vec<EnvVar>,
    pub requests: ResourceSpec,
    pub limits: ResourceSpec,
    /// Mount path of the persistent data volume; differs by node kind.
    pub data_mount_path: String,
    /// Mount path of the configuration volume; always read-only.
    pub config_mount_path: String,
}

/// Spec-level view of a container.
#[verifier::ext_equal]
pub struct ContainerSpecView {
    pub name: StringView,
    pub image: StringView,
    pub port: i32,
    pub env: Seq<EnvVarView>,
    pub requests: ResourceSpecView,
    pub limits: ResourceSpecView,
    pub data_mount_path: StringView,
    pub config_mount_path: StringView,
}

impl View for ContainerSpec {
    type V = ContainerSpecView;

    open spec fn view(&self) -> ContainerSpecView {
        ContainerSpecView {
            name: self.name@,
            image: self.image@,
            port: self.port,
            env: self.env.deep_view(),
            requests: self.requests@,
            limits: self.limits@,
            data_mount_path: self.data_mount_path@,
            config_mount_path: self.config_mount_path@,
        }
    }
}

/// The pod template of a workload: labels, the container, and the two
/// volumes backing it (the storage claim and the configuration bundle).
#[derive(Clone, Debug, PartialEq, Eq)]
pub struct PodTemplate {
    pub labels: Vec<KeyValue>,
    pub container: ContainerSpec,
    /// Name of the storage claim mounted as the data volume.
    pub data_claim: String,
    /// Name of the configuration bundle mounted as the config volume.
    pub config_map: String,
}

/// Spec-level view of a pod template.
#[verifier::ext_equal]
pub struct PodTemplateView {
    pub labels: Seq<KeyValueView>,
    pub container: ContainerSpecView,
    pub data_claim: StringView,
    pub config_map: StringView,
}

impl View for PodTemplate {
    type V = PodTemplateView;

    open spec fn view(&self) -> PodTemplateView {
        PodTemplateView {
            labels: self.labels.deep_view(),
            container: self.container@,
            data_claim: self.data_claim@,
            config_map: self.config_map@,
        }
    }
}

// ============================================================================
// Workload
// ============================================================================

/// The two workload forms: a stateful workload with stable identity for
/// validators, a replicated workload for the stateless kinds.
#[derive(Clone, Copy, Debug, PartialEq, Eq, Structural)]
pub enum WorkloadKind {
    StatefulSet,
    Deployment,
}

/// The workload resource running a node's pods; exactly one per node, of the
/// kind dictated by the node kind.
#[derive(Clone, Debug, PartialEq, Eq)]
pub struct WorkloadResource {
    pub kind: WorkloadKind,
    pub name: String,
    pub labels: Vec<KeyValue>,
    pub owner: OwnerReference,
    pub replicas: i32,
    /// Pod selector; always identical to the label set.
    pub selector: Vec<KeyValue>,
    /// Governing headless service name; stateful workloads only.
    pub service_name: Option<String>,
    pub template: PodTemplate,
}

/// Spec-level view of a workload.
#[verifier::ext_equal]
pub struct WorkloadResourceView {
    pub kind: WorkloadKind,
    pub name: StringView,
    pub labels: Seq<KeyValueView>,
    pub owner: OwnerReferenceView,
    pub replicas: i32,
    pub selector: Seq<KeyValueView>,
    pub service_name: Option<StringView>,
    pub template: PodTemplateView,
}

impl View for WorkloadResource {
    type V = WorkloadResourceView;

    open spec fn view(&self) -> WorkloadResourceView {
        WorkloadResourceView {
            kind: self.kind,
            name: self.name@,
            labels: self.labels.deep_view(),
            owner: self.owner@,
            replicas: self.replicas,
            selector: self.selector.deep_view(),
            service_name: self.service_name.deep_view(),
            template: self.template@,
        }
    }
}

// ============================================================================
// Network endpoint
// ============================================================================

/// One exposed port of a network endpoint.
#[derive(Clone, Debug, PartialEq, Eq)]
pub struct ServicePortSpec {
    pub name: String,
    pub port: i32,
}

/// Spec-level view of an exposed port.
#[verifier::ext_equal]
pub struct ServicePortSpecView {
    pub name: StringView,
    pub port: i32,
}

impl View for ServicePortSpec {
    type V = ServicePortSpecView;

    open spec fn view(&self) -> ServicePortSpecView {
        ServicePortSpecView { name: self.name@, port: self.port }
    }
}

impl DeepView for ServicePortSpec {
    type V = ServicePortSpecView;

    open spec fn deep_view(&self) -> ServicePortSpecView {
        self.view()
    }
}

/// The network endpoint selecting a node's pods by the standard label set.
#[derive(Clone, Debug, PartialEq, Eq)]
pub struct ServiceResource {
    pub name: String,
    pub labels: Vec<KeyValue>,
    pub owner: OwnerReference,
    /// Pod selector; always identical to the label set.
    pub selector: Vec<KeyValue>,
    pub ports: Vec<ServicePortSpec>,
}

/// Spec-level view of a network endpoint.
#[verifier::ext_equal]
pub struct ServiceResourceView {
    pub name: StringView,
    pub labels: Seq<KeyValueView>,
    pub owner: OwnerReferenceView,
    pub selector: Seq<KeyValueView>,
    pub ports: Seq<ServicePortSpecView>,
}

impl View for ServiceResource {
    type V = ServiceResourceView;

    open spec fn view(&self) -> ServiceResourceView {
        ServiceResourceView {
            name: self.name@,
            labels: self.labels.deep_view(),
            owner: self.owner@,
            selector: self.selector.deep_view(),
            ports: self.ports.deep_view(),
        }
    }
}

// ============================================================================
// Autoscaler
// ============================================================================

/// The autoscaler configuration provisioned for a stateless node with
/// autoscaling declared: only the replica bounds are wired.
#[derive(Clone, Debug, PartialEq, Eq)]
pub struct HpaResource {
    pub name: String,
    pub labels: Vec<KeyValue>,
    pub owner: OwnerReference,
    /// API version of the scale target.
    pub target_api_version: String,
    /// Kind of the scale target; always the replicated workload.
    pub target_kind: String,
    /// Name of the scale target.
    pub target_name: String,
    pub min_replicas: i32,
    pub max_replicas: i32,
}

/// Spec-level view of an autoscaler.
#[verifier::ext_equal]
pub struct HpaResourceView {
    pub name: StringView,
    pub labels: Seq<KeyValueView>,
    pub owner: OwnerReferenceView,
    pub target_api_version: StringView,
    pub target_kind: StringView,
    pub target_name: StringView,
    pub min_replicas: i32,
    pub max_replicas: i32,
}

impl View for HpaResource {
    type V = HpaResourceView;

    open spec fn view(&self) -> HpaResourceView {
        HpaResourceView {
            name: self.name@,
            labels: self.labels.deep_view(),
            owner: self.owner@,
            target_api_version: self.target_api_version@,
            target_kind: self.target_kind@,
            target_name: self.target_name@,
            min_replicas: self.min_replicas,
            max_replicas: self.max_replicas,
        }
    }
}

} // verus!
