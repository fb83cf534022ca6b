//! The desired-state builder: pure functions mapping a node's declaration to
//! the target representation of each child resource kind.
//!
//! Every builder is deterministic and side-effect free, and its contract pins
//! the built value, field by field, to a spec-level description.  The
//! reconciler and the child-resource operations are specified in terms of
//! those descriptions.

use vstd::prelude::*;
use crate::types::{
    KeyValue, KeyValueView, NodeType, StellarNode, StellarNodeSpecView, StellarNodeView,
    StringView, clone_key_values, spec_container_image, spec_passphrase,
};
use crate::error::Error;
use crate::labels::{
    OwnerReferenceView, owner_reference, resource_name, spec_config_map_name, spec_hpa_name,
    spec_owner_reference, spec_pvc_name, spec_resource_name, spec_standard_labels,
    standard_labels,
};
use crate::children::{
    ConfigMapResource, ConfigMapResourceView, ContainerSpec, ContainerSpecView, EnvValue,
    EnvValueView, EnvVar, EnvVarView, HpaResource, HpaResourceView, PodTemplate,
    PodTemplateView, PvcResource, PvcResourceView, ServicePortSpec, ServicePortSpecView,
    ServiceResource, ServiceResourceView, WorkloadKind, WorkloadResource, WorkloadResourceView,
};

verus! {

// ============================================================================
// Kind-dependent policy, as spec functions
// ============================================================================

/// The workload form dictated by a node kind: validators need stable
/// identity, the stateless kinds scale horizontally.
pub open spec fn spec_workload_kind(t: NodeType) -> WorkloadKind {
    match t {
        NodeType::Validator => WorkloadKind::StatefulSet,
        NodeType::Horizon => WorkloadKind::Deployment,
        NodeType::SorobanRpc => WorkloadKind::Deployment,
    }
}

/// The replica count a workload is built with: zero while suspended, pinned
/// to one for validators (a validator is a singular keyed identity and is
/// never horizontally scaled), the declared count otherwise.
pub open spec fn spec_workload_replicas(s: StellarNodeSpecView) -> i32 {
    if s.suspended {
        0i32
    } else if s.node_type == NodeType::Validator {
        1i32
    } else {
        s.replicas
    }
}

/// The container port a node kind listens on.
pub open spec fn spec_container_port(t: NodeType) -> i32 {
    match t {
        NodeType::Validator => 11625i32,
        NodeType::Horizon => 8000i32,
        NodeType::SorobanRpc => 8000i32,
    }
}

/// The mount path of the persistent data volume for a node kind.
pub open spec fn spec_data_mount_path(t: NodeType) -> StringView {
    match t {
        NodeType::Validator => "/opt/stellar/data"@,
        NodeType::Horizon => "/data"@,
        NodeType::SorobanRpc => "/data"@,
    }
}

/// The environment variable name a node kind expects its database credential
/// under.
pub open spec fn spec_db_env_name(t: NodeType) -> StringView {
    match t {
        NodeType::Validator => "DATABASE"@,
        NodeType::Horizon => "DATABASE_URL"@,
        NodeType::SorobanRpc => "DATABASE_URL"@,
    }
}

/// A boolean rendered as configuration text.
pub open spec fn spec_bool_text(b: bool) -> StringView {
    if b {
        "true"@
    } else {
        "false"@
    }
}

/// The workload form for a node kind.
pub fn workload_kind(t: &NodeType) -> (r: WorkloadKind)
    ensures
        r == spec_workload_kind(*t),
{
    match t {
        NodeType::Validator => WorkloadKind::StatefulSet,
        NodeType::Horizon | NodeType::SorobanRpc => WorkloadKind::Deployment,
    }
}

/// Render a boolean as configuration text.
pub fn bool_text(b: bool) -> (r: String)
    ensures
        r@ == spec_bool_text(b),
{
    if b {
        String::from_str("true")
    } else {
        String::from_str("false")
    }
}

// ============================================================================
// Storage claim
// ============================================================================

/// The desired storage claim of a node.
pub open spec fn spec_desired_pvc(node: StellarNodeView) -> PvcResourceView {
    PvcResourceView {
        name: spec_pvc_name(node.name),
        labels: spec_standard_labels(node.name, node.spec.node_type),
        annotations: match node.spec.storage.annotations {
            Some(a) => if a.len() == 0 {
                None
            } else {
                Some(a)
            },
            None => None,
        },
        owner: spec_owner_reference(node),
        access_mode: "ReadWriteOnce"@,
        storage_class: node.spec.storage.storage_class,
        size: node.spec.storage.size,
    }
}

/// Build the storage claim for a node.
pub fn build_pvc(node: &StellarNode) -> (r: PvcResource)
    ensures
        r@ == spec_desired_pvc(node@),
{
    let annotations: Option<Vec<KeyValue>> = match &node.spec.storage.annotations {
        Some(a) => {
            if a.len() == 0 {
                None
            } else {
                Some(clone_key_values(a))
            }
        },
        None => None,
    };
    let r = PvcResource {
        name: resource_name(node, "data"),
        labels: standard_labels(node),
        annotations,
        owner: owner_reference(node),
        access_mode: String::from_str("ReadWriteOnce"),
        storage_class: node.spec.storage.storage_class.clone(),
        size: node.spec.storage.size.clone(),
    };
    proof {
        assert(r@ =~= spec_desired_pvc(node@));
    }
    r
}

// ============================================================================
// Configuration bundle
// ============================================================================

/// The key/value data of a node's configuration bundle: the network
/// passphrase, then kind-specific entries drawn from the kind's
/// configuration block when present.
pub open spec fn spec_config_data(s: StellarNodeSpecView) -> Seq<KeyValueView> {
    let base = seq![
        KeyValueView { key: "NETWORK_PASSPHRASE"@, value: spec_passphrase(s.network) },
    ];
    match s.node_type {
        NodeType::Validator => match s.validator_config {
            Some(c) => match c.quorum_set {
                Some(q) => base + seq![KeyValueView { key: "stellar-core.cfg"@, value: q }],
                None => base,
            },
            None => base,
        },
        NodeType::Horizon => match s.horizon_config {
            Some(c) => base + seq![
                KeyValueView { key: "STELLAR_CORE_URL"@, value: c.stellar_core_url },
                KeyValueView { key: "INGEST"@, value: spec_bool_text(c.enable_ingest) },
            ],
            None => base,
        },
        NodeType::SorobanRpc => match s.soroban_config {
            Some(c) => {
                let with_url = base + seq![
                    KeyValueView { key: "STELLAR_CORE_URL"@, value: c.stellar_core_url },
                ];
                match c.captive_core_config {
                    Some(cc) => with_url + seq![
                        KeyValueView { key: "captive-core.cfg"@, value: cc },
                    ],
                    None => with_url,
                }
            },
            None => base,
        },
    }
}

/// The desired configuration bundle of a node.
pub open spec fn spec_desired_config_map(node: StellarNodeView) -> ConfigMapResourceView {
    ConfigMapResourceView {
        name: spec_config_map_name(node.name),
        labels: spec_standard_labels(node.name, node.spec.node_type),
        owner: spec_owner_reference(node),
        data: spec_config_data(node.spec),
    }
}

/// Build the configuration bundle for a node; fully regenerated from the
/// spec on every reconcile.
pub fn build_config_map(node: &StellarNode) -> (r: ConfigMapResource)
    ensures
        r@ == spec_desired_config_map(node@),
{
    let mut data: Vec<KeyValue> = Vec::new();
    data.push(
        KeyValue {
            key: String::from_str("NETWORK_PASSPHRASE"),
            value: String::from_str(node.spec.network.passphrase()),
        },
    );
    match node.spec.node_type {
        NodeType::Validator => {
            match &node.spec.validator_config {
                Some(c) => {
                    match &c.quorum_set {
                        Some(q) => {
                            data.push(
                                KeyValue {
                                    key: String::from_str("stellar-core.cfg"),
                                    value: q.clone(),
                                },
                            );
                        },
                        None => {},
                    }
                },
                None => {},
            }
        },
        NodeType::Horizon => {
            match &node.spec.horizon_config {
                Some(c) => {
                    data.push(
                        KeyValue {
                            key: String::from_str("STELLAR_CORE_URL"),
                            value: c.stellar_core_url.clone(),
                        },
                    );
                    data.push(
                        KeyValue {
                            key: String::from_str("INGEST"),
                            value: bool_text(c.enable_ingest),
                        },
                    );
                },
                None => {},
            }
        },
        NodeType::SorobanRpc => {
            match &node.spec.soroban_config {
                Some(c) => {
                    data.push(
                        KeyValue {
                            key: String::from_str("STELLAR_CORE_URL"),
                            value: c.stellar_core_url.clone(),
                        },
                    );
                    match &c.captive_core_config {
                        Some(cc) => {
                            data.push(
                                KeyValue {
                                    key: String::from_str("captive-core.cfg"),
                                    value: cc.clone(),
                                },
                            );
                        },
                        None => {},
                    }
                },
                None => {},
            }
        },
    }
    proof {
        assert(data.deep_view() =~= spec_config_data(node@.spec));
    }
    let r = ConfigMapResource {
        name: resource_name(node, "config"),
        labels: standard_labels(node),
        owner: owner_reference(node),
        data,
    };
    proof {
        assert(r@ =~= spec_desired_config_map(node@));
    }
    r
}

// ============================================================================
// Container and pod template
// ============================================================================

/// The environment of a node's container: the network passphrase, then —
/// when an external database is configured — its credential injected by
/// secret reference under the kind's variable name.
pub open spec fn spec_container_env(s: StellarNodeSpecView) -> Seq<EnvVarView> {
    let base = seq![
        EnvVarView {
            name: "NETWORK_PASSPHRASE"@,
            value: EnvValueView::Literal(spec_passphrase(s.network)),
        },
    ];
    match s.database {
        Some(db) => base + seq![
            EnvVarView {
                name: spec_db_env_name(s.node_type),
                value: EnvValueView::SecretRef {
                    name: db.secret_key_ref.name,
                    key: db.secret_key_ref.key,
                },
            },
        ],
        None => base,
    }
}

/// The desired container of a node's pods.
pub open spec fn spec_desired_container(s: StellarNodeSpecView) -> ContainerSpecView {
    ContainerSpecView {
        name: "stellar-node"@,
        image: spec_container_image(s.node_type, s.version),
        port: spec_container_port(s.node_type),
        env: spec_container_env(s),
        requests: s.resources.requests,
        limits: s.resources.limits,
        data_mount_path: spec_data_mount_path(s.node_type),
        config_mount_path: "/config"@,
    }
}

/// Build the single container a node's pods run.
pub fn build_container(node: &StellarNode) -> (r: ContainerSpec)
    ensures
        r@ == spec_desired_container(node@.spec),
{
    let mut env: Vec<EnvVar> = Vec::new();
    env.push(
        EnvVar {
            name: String::from_str("NETWORK_PASSPHRASE"),
            value: EnvValue::Literal(String::from_str(node.spec.network.passphrase())),
        },
    );
    match &node.spec.database {
        Some(db) => {
            let var_name: String = match node.spec.node_type {
                NodeType::Validator => String::from_str("DATABASE"),
                NodeType::Horizon | NodeType::SorobanRpc => String::from_str("DATABASE_URL"),
            };
            env.push(
                EnvVar {
                    name: var_name,
                    value: EnvValue::SecretRef {
                        name: db.secret_key_ref.name.clone(),
                        key: db.secret_key_ref.key.clone(),
                    },
                },
            );
        },
        None => {},
    }
    proof {
        assert(env.deep_view() =~= spec_container_env(node@.spec));
    }
    let port: i32 = match node.spec.node_type {
        NodeType::Validator => 11625,
        NodeType::Horizon | NodeType::SorobanRpc => 8000,
    };
    let data_mount_path: String = match node.spec.node_type {
        NodeType::Validator => String::from_str("/opt/stellar/data"),
        NodeType::Horizon | NodeType::SorobanRpc => String::from_str("/data"),
    };
    let r = ContainerSpec {
        name: String::from_str("stellar-node"),
        image: node.spec.container_image(),
        port,
        env,
        requests: clone_resource_spec(&node.spec.resources.requests),
        limits: clone_resource_spec(&node.spec.resources.limits),
        data_mount_path,
        config_mount_path: String::from_str("/config"),
    };
    proof {
        assert(r@ =~= spec_desired_container(node@.spec));
    }
    r
}

/// Copy resource quantities, preserving both fields.
pub fn clone_resource_spec(r: &crate::types::ResourceSpec) -> (c: crate::types::ResourceSpec)
    ensures
        c@ == r@,
{
    crate::types::ResourceSpec { cpu: r.cpu.clone(), memory: r.memory.clone() }
}

/// The desired pod template of a node's workload: the standard labels, the
/// container, and the two volumes backing it.
pub open spec fn spec_desired_pod_template(node: StellarNodeView) -> PodTemplateView {
    PodTemplateView {
        labels: spec_standard_labels(node.name, node.spec.node_type),
        container: spec_desired_container(node.spec),
        data_claim: spec_pvc_name(node.name),
        config_map: spec_config_map_name(node.name),
    }
}

/// Build the pod template for a node's workload.
pub fn build_pod_template(node: &StellarNode) -> (r: PodTemplate)
    ensures
        r@ == spec_desired_pod_template(node@),
{
    let r = PodTemplate {
        labels: standard_labels(node),
        container: build_container(node),
        data_claim: resource_name(node, "data"),
        config_map: resource_name(node, "config"),
    };
    proof {
        assert(r@ =~= spec_desired_pod_template(node@));
    }
    r
}

// ============================================================================
// Workload
// ============================================================================

/// The desired workload of a node: the form dictated by the node kind, the
/// standard labels reused as the selector, and the kind's replica policy.
pub open spec fn spec_desired_workload(node: StellarNodeView) -> WorkloadResourceView {
    WorkloadResourceView {
        kind: spec_workload_kind(node.spec.node_type),
        name: node.name,
        labels: spec_standard_labels(node.name, node.spec.node_type),
        owner: spec_owner_reference(node),
        replicas: spec_workload_replicas(node.spec),
        selector: spec_standard_labels(node.name, node.spec.node_type),
        service_name: if spec_workload_kind(node.spec.node_type) is StatefulSet {
            Some(node.name + "-headless"@)
        } else {
            None
        },
        template: spec_desired_pod_template(node),
    }
}

/// Build the replicated workload for a stateless node kind.
pub fn build_deployment(node: &StellarNode) -> (r: WorkloadResource)
    requires
        node.spec.node_type != NodeType::Validator,
    ensures
        r@ == spec_desired_workload(node@),
{
    let replicas: i32 = if node.spec.suspended {
        0
    } else {
        node.spec.replicas
    };
    let r = WorkloadResource {
        kind: WorkloadKind::Deployment,
        name: node.name.clone(),
        labels: standard_labels(node),
        owner: owner_reference(node),
        replicas,
        selector: standard_labels(node),
        service_name: None,
        template: build_pod_template(node),
    };
    proof {
        assert(r@ =~= spec_desired_workload(node@));
    }
    r
}

/// Build the stateful workload for a validator.  The replica count is pinned
/// to one (zero while suspended) regardless of the declared count.
pub fn build_statefulset(node: &StellarNode) -> (r: WorkloadResource)
    requires
        node.spec.node_type == NodeType::Validator,
    ensures
        r@ == spec_desired_workload(node@),
{
    let replicas: i32 = if node.spec.suspended {
        0
    } else {
        1
    };
    let r = WorkloadResource {
        kind: WorkloadKind::StatefulSet,
        name: node.name.clone(),
        labels: standard_labels(node),
        owner: owner_reference(node),
        replicas,
        selector: standard_labels(node),
        service_name: Some(node.name.clone().concat("-headless")),
        template: build_pod_template(node),
    };
    proof {
        assert(r@ =~= spec_desired_workload(node@));
    }
    r
}

/// Build the workload of the form dictated by the node kind: exactly one of
/// the stateful or the replicated form, never both.
pub fn build_workload(node: &StellarNode) -> (r: WorkloadResource)
    ensures
        r@ == spec_desired_workload(node@),
{
    match node.spec.node_type {
        NodeType::Validator => build_statefulset(node),
        NodeType::Horizon | NodeType::SorobanRpc => build_deployment(node),
    }
}

// ============================================================================
// Network endpoint
// ============================================================================

/// The ports a node kind exposes: validators a peer and an http port, the
/// stateless kinds a single http port.
pub open spec fn spec_service_ports(t: NodeType) -> Seq<ServicePortSpecView> {
    match t {
        NodeType::Validator => seq![
            ServicePortSpecView { name: "peer"@, port: 11625i32 },
            ServicePortSpecView { name: "http"@, port: 11626i32 },
        ],
        NodeType::Horizon => seq![ServicePortSpecView { name: "http"@, port: 8000i32 }],
        NodeType::SorobanRpc => seq![ServicePortSpecView { name: "http"@, port: 8000i32 }],
    }
}

/// The desired network endpoint of a node, selecting its pods by the
/// standard label set.
pub open spec fn spec_desired_service(node: StellarNodeView) -> ServiceResourceView {
    ServiceResourceView {
        name: node.name,
        labels: spec_standard_labels(node.name, node.spec.node_type),
        owner: spec_owner_reference(node),
        selector: spec_standard_labels(node.name, node.spec.node_type),
        ports: spec_service_ports(node.spec.node_type),
    }
}

/// Build the network endpoint for a node.
pub fn build_service(node: &StellarNode) -> (r: ServiceResource)
    ensures
        r@ == spec_desired_service(node@),
{
    let mut ports: Vec<ServicePortSpec> = Vec::new();
    match node.spec.node_type {
        NodeType::Validator => {
            ports.push(ServicePortSpec { name: String::from_str("peer"), port: 11625 });
            ports.push(ServicePortSpec { name: String::from_str("http"), port: 11626 });
        },
        NodeType::Horizon | NodeType::SorobanRpc => {
            ports.push(ServicePortSpec { name: String::from_str("http"), port: 8000 });
        },
    }
    proof {
        assert(ports.deep_view() =~= spec_service_ports(node@.spec.node_type));
    }
    let r = ServiceResource {
        name: node.name.clone(),
        labels: standard_labels(node),
        owner: owner_reference(node),
        selector: standard_labels(node),
        ports,
    };
    proof {
        assert(r@ =~= spec_desired_service(node@));
    }
    r
}

// ============================================================================
// Autoscaler
// ============================================================================

/// The desired autoscaler of a node with autoscaling bounds `min` and `max`:
/// it targets the replicated workload by name, and only the bounds are
/// wired.  A non-empty custom-metrics list is accepted in the spec but not
/// provisioned, since wiring it needs an external metrics adapter.
pub open spec fn spec_desired_hpa(node: StellarNodeView, min: i32, max: i32) -> HpaResourceView {
    HpaResourceView {
        name: spec_hpa_name(node.name),
        labels: spec_standard_labels(node.name, node.spec.node_type),
        owner: spec_owner_reference(node),
        target_api_version: "apps/v1"@,
        target_kind: "Deployment"@,
        target_name: node.name,
        min_replicas: min,
        max_replicas: max,
    }
}

/// Build the autoscaler for a node.  Fails with a validation error when no
/// autoscaling block is declared.
pub fn build_hpa(node: &StellarNode) -> (r: Result<HpaResource, Error>)
    ensures
        node@.spec.autoscaling matches Some(a) ==> (r matches Ok(h) && h@ == spec_desired_hpa(
            node@,
            a.min_replicas,
            a.max_replicas,
        )),
        node@.spec.autoscaling is None ==> (r matches Err(e) && e@ matches
            crate::error::ErrorView::ValidationError(m) && m == "Autoscaling config not found"@),
{
    match &node.spec.autoscaling {
        Some(a) => {
            let h = HpaResource {
                name: resource_name(node, "hpa"),
                labels: standard_labels(node),
                owner: owner_reference(node),
                target_api_version: String::from_str("apps/v1"),
                target_kind: String::from_str("Deployment"),
                target_name: node.name.clone(),
                min_replicas: a.min_replicas,
                max_replicas: a.max_replicas,
            };
            proof {
                assert(h@ =~= spec_desired_hpa(
                    node@,
                    node@.spec.autoscaling->Some_0.min_replicas,
                    node@.spec.autoscaling->Some_0.max_replicas,
                ));
            }
            Ok(h)
        },
        None => Err(Error::ValidationError(String::from_str("Autoscaling config not found"))),
    }
}

} // verus!
