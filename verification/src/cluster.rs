//! A model of the cluster state owned by one node, and the idempotent child
//! resource operations against it.
//!
//! Each child of a node is exclusively owned by it and never shared, so the
//! state relevant to one reconcile is the presence and content of that
//! node's five children.  The operations here carry the semantics the child
//! resource manager guarantees against the real cluster API: get-or-create
//! for the storage claim, merge-style apply (full regeneration under a fixed
//! manager identity) for the other kinds, and deletion that treats "already
//! absent" as success.

use vstd::prelude::*;
use crate::types::{NodeType, StellarNode, StellarNodeView, spec_wants_autoscaler};
use crate::children::{
    ConfigMapResource, ConfigMapResourceView, HpaResource, HpaResourceView, PvcResource,
    PvcResourceView, ServiceResource, ServiceResourceView, WorkloadResource,
    WorkloadResourceView,
};
use crate::desired::{
    build_config_map, build_deployment, build_hpa, build_pvc, build_service, build_statefulset,
    spec_desired_config_map, spec_desired_hpa, spec_desired_pvc, spec_desired_service,
    spec_desired_workload,
};

verus! {

// ============================================================================
// The cluster state of one node
// ============================================================================

/// The child resources of one node that currently exist in the cluster.
#[derive(Clone, Debug, PartialEq, Eq)]
pub struct ClusterState {
    pub pvc: Option<PvcResource>,
    pub config_map: Option<ConfigMapResource>,
    pub workload: Option<WorkloadResource>,
    pub service: Option<ServiceResource>,
    pub hpa: Option<HpaResource>,
}

/// Spec-level view of a node's cluster state.
#[verifier::ext_equal]
pub struct ClusterStateView {
    pub pvc: Option<PvcResourceView>,
    pub config_map: Option<ConfigMapResourceView>,
    pub workload: Option<WorkloadResourceView>,
    pub service: Option<ServiceResourceView>,
    pub hpa: Option<HpaResourceView>,
}

impl View for ClusterState {
    type V = ClusterStateView;

    open spec fn view(&self) -> ClusterStateView {
        ClusterStateView {
            pvc: match self.pvc {
                Some(ref x) => Some(x@),
                None => None,
            },
            config_map: match self.config_map {
                Some(ref x) => Some(x@),
                None => None,
            },
            workload: match self.workload {
                Some(ref x) => Some(x@),
                None => None,
            },
            service: match self.service {
                Some(ref x) => Some(x@),
                None => None,
            },
            hpa: match self.hpa {
                Some(ref x) => Some(x@),
                None => None,
            },
        }
    }
}

/// The state of a cluster holding no child of the node.
pub open spec fn spec_empty_cluster() -> ClusterStateView {
    ClusterStateView { pvc: None, config_map: None, workload: None, service: None, hpa: None }
}

impl ClusterState {
    /// A cluster state holding no child of the node.
    pub fn empty() -> (r: ClusterState)
        ensures
            r@ == spec_empty_cluster(),
    {
        ClusterState { pvc: None, config_map: None, workload: None, service: None, hpa: None }
    }
}

// ============================================================================
// Ensure operations (apply path)
// ============================================================================

/// Get-or-create for the storage claim: an existing claim is left exactly as
/// it is — claims are materially immutable once provisioned.
pub open spec fn spec_ensure_pvc(node: StellarNodeView, c: ClusterStateView) -> ClusterStateView {
    if c.pvc is Some {
        c
    } else {
        ClusterStateView { pvc: Some(spec_desired_pvc(node)), ..c }
    }
}

/// Ensure the storage claim exists for the node; never updates an existing
/// claim.
pub fn ensure_pvc(node: &StellarNode, cluster: &mut ClusterState)
    ensures
        final(cluster)@ == spec_ensure_pvc(node@, old(cluster)@),
{
    match &cluster.pvc {
        Some(_) => {},
        None => {
            cluster.pvc = Some(build_pvc(node));
        },
    }
    proof {
        assert(cluster@ =~= spec_ensure_pvc(node@, old(cluster)@));
    }
}

/// Merge-style apply of the configuration bundle: fully regenerated from the
/// spec, replacing whatever stood there.
pub open spec fn spec_ensure_config_map(node: StellarNodeView, c: ClusterStateView)
    -> ClusterStateView {
    ClusterStateView { config_map: Some(spec_desired_config_map(node)), ..c }
}

/// Ensure the configuration bundle matches the spec.
pub fn ensure_config_map(node: &StellarNode, cluster: &mut ClusterState)
    ensures
        final(cluster)@ == spec_ensure_config_map(node@, old(cluster)@),
{
    cluster.config_map = Some(build_config_map(node));
    proof {
        assert(cluster@ =~= spec_ensure_config_map(node@, old(cluster)@));
    }
}

/// Merge-style apply of the workload of the kind dictated by the node kind.
pub open spec fn spec_ensure_workload(node: StellarNodeView, c: ClusterStateView)
    -> ClusterStateView {
    ClusterStateView { workload: Some(spec_desired_workload(node)), ..c }
}

/// Ensure the replicated workload for a stateless node kind.
pub fn ensure_deployment(node: &StellarNode, cluster: &mut ClusterState)
    requires
        node.spec.node_type != NodeType::Validator,
    ensures
        final(cluster)@ == spec_ensure_workload(node@, old(cluster)@),
{
    cluster.workload = Some(build_deployment(node));
    proof {
        assert(cluster@ =~= spec_ensure_workload(node@, old(cluster)@));
    }
}

/// Ensure the stateful workload for a validator.
pub fn ensure_statefulset(node: &StellarNode, cluster: &mut ClusterState)
    requires
        node.spec.node_type == NodeType::Validator,
    ensures
        final(cluster)@ == spec_ensure_workload(node@, old(cluster)@),
{
    cluster.workload = Some(build_statefulset(node));
    proof {
        assert(cluster@ =~= spec_ensure_workload(node@, old(cluster)@));
    }
}

/// Merge-style apply of the network endpoint.
pub open spec fn spec_ensure_service(node: StellarNodeView, c: ClusterStateView)
    -> ClusterStateView {
    ClusterStateView { service: Some(spec_desired_service(node)), ..c }
}

/// Ensure the network endpoint for the node.
pub fn ensure_service(node: &StellarNode, cluster: &mut ClusterState)
    ensures
        final(cluster)@ == spec_ensure_service(node@, old(cluster)@),
{
    cluster.service = Some(build_service(node));
    proof {
        assert(cluster@ =~= spec_ensure_service(node@, old(cluster)@));
    }
}

/// The autoscaler is applied only for a stateless kind with autoscaling
/// configured; otherwise the operation is a no-op and whatever stands is
/// left untouched.
pub open spec fn spec_ensure_hpa(node: StellarNodeView, c: ClusterStateView) -> ClusterStateView {
    if spec_wants_autoscaler(node.spec) {
        ClusterStateView {
            hpa: Some(
                spec_desired_hpa(
                    node,
                    node.spec.autoscaling->Some_0.min_replicas,
                    node.spec.autoscaling->Some_0.max_replicas,
                ),
            ),
            ..c
        }
    } else {
        c
    }
}

/// Ensure the autoscaler for a stateless node with autoscaling configured;
/// a no-op for every other node.
pub fn ensure_hpa(node: &StellarNode, cluster: &mut ClusterState)
    ensures
        final(cluster)@ == spec_ensure_hpa(node@, old(cluster)@),
{
    if node.spec.wants_autoscaler() {
        match build_hpa(node) {
            Ok(h) => {
                cluster.hpa = Some(h);
            },
            Err(_) => {
                proof {
                    assert(false);
                }
            },
        }
    }
    proof {
        assert(cluster@ =~= spec_ensure_hpa(node@, old(cluster)@));
    }
}

// ============================================================================
// Delete operations (cleanup path)
// ============================================================================

/// Deletion of the storage claim; "already absent" is success.
pub open spec fn spec_delete_pvc(c: ClusterStateView) -> ClusterStateView {
    ClusterStateView { pvc: None, ..c }
}

/// Delete the storage claim of the node.
pub fn delete_pvc(node: &StellarNode, cluster: &mut ClusterState)
    ensures
        final(cluster)@ == spec_delete_pvc(old(cluster)@),
{
    cluster.pvc = None;
    proof {
        assert(cluster@ =~= spec_delete_pvc(old(cluster)@));
    }
}

/// Deletion of the configuration bundle; "already absent" is success.
pub open spec fn spec_delete_config_map(c: ClusterStateView) -> ClusterStateView {
    ClusterStateView { config_map: None, ..c }
}

/// Delete the configuration bundle of the node.
pub fn delete_config_map(node: &StellarNode, cluster: &mut ClusterState)
    ensures
        final(cluster)@ == spec_delete_config_map(old(cluster)@),
{
    cluster.config_map = None;
    proof {
        assert(cluster@ =~= spec_delete_config_map(old(cluster)@));
    }
}

/// Deletion of the workload, of whichever kind the node kind dictates;
/// "already absent" is success.
pub open spec fn spec_delete_workload(c: ClusterStateView) -> ClusterStateView {
    ClusterStateView { workload: None, ..c }
}

/// Delete the workload of the node: the stateful form for a validator, the
/// replicated form otherwise.
pub fn delete_workload(node: &StellarNode, cluster: &mut ClusterState)
    ensures
        final(cluster)@ == spec_delete_workload(old(cluster)@),
{
    // A node has at most one workload at a time, of either form, so the
    // model holds a single slot; which API the real deletion goes to is
    // decided by `workload_kind`.
    cluster.workload = None;
    proof {
        assert(cluster@ =~= spec_delete_workload(old(cluster)@));
    }
}

/// Deletion of the network endpoint; "already absent" is success.
pub open spec fn spec_delete_service(c: ClusterStateView) -> ClusterStateView {
    ClusterStateView { service: None, ..c }
}

/// Delete the network endpoint of the node.
pub fn delete_service(node: &StellarNode, cluster: &mut ClusterState)
    ensures
        final(cluster)@ == spec_delete_service(old(cluster)@),
{
    cluster.service = None;
    proof {
        assert(cluster@ =~= spec_delete_service(old(cluster)@));
    }
}

/// The autoscaler is deleted only when the node declared autoscaling;
/// otherwise the operation is a no-op.
pub open spec fn spec_delete_hpa(node: StellarNodeView, c: ClusterStateView) -> ClusterStateView {
    if node.spec.autoscaling is Some {
        ClusterStateView { hpa: None, ..c }
    } else {
        c
    }
}

/// Delete the autoscaler of a node that declared autoscaling; a no-op for
/// every other node.  "Already absent" is success.
pub fn delete_hpa(node: &StellarNode, cluster: &mut ClusterState)
    ensures
        final(cluster)@ == spec_delete_hpa(node@, old(cluster)@),
{
    if node.spec.autoscaling.is_some() {
        cluster.hpa = None;
    }
    proof {
        assert(cluster@ =~= spec_delete_hpa(node@, old(cluster)@));
    }
}

} // verus!
