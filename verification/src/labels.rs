//! Deterministic naming, labelling and ownership of child resources.
//!
//! Every child resource of a node carries the same five-entry label set,
//! used simultaneously as object labels and as the pod selector, and an
//! owner back-reference to the node for platform-driven garbage collection.

use vstd::prelude::*;
use crate::types::{
    KeyValue, KeyValueView, NodeType, StellarNode, StellarNodeView, StringView,
    spec_node_type_component, spec_node_type_name,
};

verus! {

// ============================================================================
// Standard labels
// ============================================================================

/// The standard label set for a node's resources: name, instance, component,
/// managed-by and node kind.  All children of one node share exactly this
/// set, and the workload selector reuses it, so workload, endpoint and pods
/// always match.
pub open spec fn spec_standard_labels(name: StringView, t: NodeType) -> Seq<KeyValueView> {
    seq![
        KeyValueView { key: "app.kubernetes.io/name"@, value: "stellar-node"@ },
        KeyValueView { key: "app.kubernetes.io/instance"@, value: name },
        KeyValueView { key: "app.kubernetes.io/component"@, value: spec_node_type_component(t) },
        KeyValueView { key: "app.kubernetes.io/managed-by"@, value: "stellar-operator"@ },
        KeyValueView { key: "stellar.org/node-type"@, value: spec_node_type_name(t) },
    ]
}

/// Get the standard labels for a node's resources.
pub fn standard_labels(node: &StellarNode) -> (r: Vec<KeyValue>)
    ensures
        r.deep_view() == spec_standard_labels(node@.name, node@.spec.node_type),
{
    let mut labels: Vec<KeyValue> = Vec::new();
    labels.push(KeyValue::new("app.kubernetes.io/name", "stellar-node"));
    labels.push(KeyValue { key: String::from_str("app.kubernetes.io/instance"), value: node.name.clone() });
    labels.push(KeyValue { key: String::from_str("app.kubernetes.io/component"), value: node.spec.node_type.component() });
    labels.push(KeyValue { key: String::from_str("app.kubernetes.io/managed-by"), value: String::from_str("stellar-operator") });
    labels.push(KeyValue { key: String::from_str("stellar.org/node-type"), value: node.spec.node_type.name() });
    proof {
        assert(labels.deep_view() =~= spec_standard_labels(node@.name, node@.spec.node_type));
    }
    labels
}

// ============================================================================
// Deterministic resource names
// ============================================================================

/// Build the name of a child resource from the node name and a suffix.
pub open spec fn spec_resource_name(name: StringView, suffix: StringView) -> StringView {
    name + "-"@ + suffix
}

/// Build the resource name for a given component.
pub fn resource_name(node: &StellarNode, suffix: &str) -> (r: String)
    ensures
        r@ == spec_resource_name(node@.name, suffix@),
{
    node.name.clone().concat("-").concat(suffix)
}

/// The name of a node's storage claim: `<node-name>-data`.
pub open spec fn spec_pvc_name(name: StringView) -> StringView {
    spec_resource_name(name, "data"@)
}

/// The name of a node's configuration bundle: `<node-name>-config`.
pub open spec fn spec_config_map_name(name: StringView) -> StringView {
    spec_resource_name(name, "config"@)
}

/// The name of a node's autoscaler: `<node-name>-hpa`.
pub open spec fn spec_hpa_name(name: StringView) -> StringView {
    spec_resource_name(name, "hpa"@)
}

// ============================================================================
// Owner back-reference
// ============================================================================

/// An owner back-reference from a child resource to its node, enabling
/// automatic cascading deletion by the platform's garbage collector.
#[derive(Clone, Debug, PartialEq, Eq)]
pub struct OwnerReference {
    /// API version of the owning resource type.
    pub api_version: String,
    /// Kind of the owning resource type.
    pub kind: String,
    /// Name of the owning node.
    pub name: String,
    /// Unique identifier of the owning node.
    pub uid: String,
    /// This reference points at the managing controller.
    pub controller: bool,
    /// The owner cannot be hard-deleted while the child remains.
    pub block_owner_deletion: bool,
}

/// Spec-level view of an owner back-reference.
#[verifier::ext_equal]
pub struct OwnerReferenceView {
    pub api_version: StringView,
    pub kind: StringView,
    pub name: StringView,
    pub uid: StringView,
    pub controller: bool,
    pub block_owner_deletion: bool,
}

impl View for OwnerReference {
    type V = OwnerReferenceView;

    open spec fn view(&self) -> OwnerReferenceView {
        OwnerReferenceView {
            api_version: self.api_version@,
            kind: self.kind@,
            name: self.name@,
            uid: self.uid@,
            controller: self.controller,
            block_owner_deletion: self.block_owner_deletion,
        }
    }
}

/// The owner back-reference every child of a node carries.
pub open spec fn spec_owner_reference(node: StellarNodeView) -> OwnerReferenceView {
    OwnerReferenceView {
        api_version: "stellar.org/v1alpha1"@,
        kind: "StellarNode"@,
        name: node.name,
        uid: node.uid,
        controller: true,
        block_owner_deletion: true,
    }
}

/// Create an owner back-reference to a node for garbage collection.
pub fn owner_reference(node: &StellarNode) -> (r: OwnerReference)
    ensures
        r@ == spec_owner_reference(node@),
{
    OwnerReference {
        api_version: String::from_str("stellar.org/v1alpha1"),
        kind: String::from_str("StellarNode"),
        name: node.name.clone(),
        uid: node.uid.clone(),
        controller: true,
        block_owner_deletion: true,
    }
}

} // verus!
