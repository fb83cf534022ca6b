//! Proved properties of the reconciliation engine.
//!
//! Each proof function here states a law relating the engine's spec-level
//! model functions — the same functions the executable contracts are pinned
//! to — so everything shown here holds of the executable apply and cleanup
//! paths as well.

use vstd::prelude::*;
use crate::types::{
    NodeType, Phase, RetentionPolicy, StellarNodeSpecView, StellarNodeView, StringView,
    spec_fault_message, spec_first_fault, spec_valid,
};
use crate::error::ErrorView;
use crate::children::WorkloadKind;
use crate::cluster::{ClusterStateView, spec_empty_cluster};
use crate::desired::{spec_workload_kind, spec_workload_replicas};
use crate::reconciler::{
    CleanupFailures, CleanupPolicy, spec_cleanup_blocked, spec_no_failures,
    RETRY_TERMINAL_SECONDS, RETRY_TRANSIENT_SECONDS, spec_apply_children, spec_applied_node,
    spec_cleanup_children, spec_failed_node, spec_retry_seconds, spec_status_replicas,
};

verus! {

/// Applying a valid spec to the empty cluster state converges in one pass:
/// the node reports phase Running (or Suspended while suspended), every
/// child the spec calls for exists, and the single workload is of the kind
/// dictated by the node kind with replicas zero while suspended, one for a
/// validator, and the declared count otherwise.
pub proof fn lemma_apply_from_empty_converges(node: StellarNodeView, ready: i32)
    requires
        spec_valid(node.spec),
    ensures
        ({
            let c = spec_apply_children(node, spec_empty_cluster());
            let n = spec_applied_node(node, ready);
            &&& c.workload matches Some(w) && w.kind == spec_workload_kind(node.spec.node_type)
                && w.replicas == spec_workload_replicas(node.spec)
            &&& c.pvc is Some
            &&& c.config_map is Some
            &&& c.service is Some
            &&& n.status matches Some(st) && st.phase == (if node.spec.suspended {
                Phase::Suspended
            } else {
                Phase::Running
            }) && st.observed_generation == Some(node.generation) && st.ready_replicas == ready
            &&& n.finalizer_attached
        }),
{
}

/// Applying the same spec twice in a row changes nothing: the cluster state
/// after the second pass equals the state after the first, from any starting
/// state, and the node's reported status is stable as well (given the same
/// observed ready count).
pub proof fn lemma_apply_idempotent(node: StellarNodeView, c: ClusterStateView, ready: i32)
    ensures
        spec_apply_children(node, spec_apply_children(node, c)) == spec_apply_children(node, c),
        spec_applied_node(spec_applied_node(node, ready), ready) == spec_applied_node(
            node,
            ready,
        ),
{
    assert(spec_apply_children(node, spec_apply_children(node, c)) =~= spec_apply_children(
        node,
        c,
    ));
    assert(spec_applied_node(spec_applied_node(node, ready), ready) =~~= spec_applied_node(
        node,
        ready,
    ));
}

/// A validator's workload replica count is one whenever it is not
/// suspended, regardless of the declared replica count, and its workload is
/// always the stateful form.
pub proof fn lemma_validator_single_replica(node: StellarNodeView, c: ClusterStateView)
    requires
        node.spec.node_type == NodeType::Validator,
        !node.spec.suspended,
    ensures
        spec_apply_children(node, c).workload matches Some(w) && w.replicas == 1i32 && w.kind
            == WorkloadKind::StatefulSet,
{
}

/// Suspending a running node drives its workload replicas to zero while the
/// storage claim and the configuration bundle are left exactly as the
/// previous pass wrote them, and its reported replica count drops to zero.
pub proof fn lemma_suspend_scales_to_zero(node: StellarNodeView, c: ClusterStateView, ready: i32)
    requires
        !node.spec.suspended,
    ensures
        ({
            let suspended = StellarNodeView {
                spec: StellarNodeSpecView { suspended: true, ..node.spec },
                ..node
            };
            let c1 = spec_apply_children(node, c);
            let c2 = spec_apply_children(suspended, c1);
            &&& c2.workload matches Some(w) && w.replicas == 0i32
            &&& c2.pvc == c1.pvc
            &&& c2.config_map == c1.config_map
            &&& spec_status_replicas(suspended.spec) == 0i32
        }),
{
}

/// Cleanup with no failed step deletes the storage claim exactly under the
/// Delete retention policy: with Retain the claim stands untouched
/// afterwards, with Delete it is absent.  Every other child is deleted
/// either way.
pub proof fn lemma_cleanup_retention(node: StellarNodeView, c: ClusterStateView)
    ensures
        ({
            let after = spec_cleanup_children(node, c, spec_no_failures());
            &&& node.spec.storage.retention_policy == RetentionPolicy::Retain ==> after.pvc
                == c.pvc
            &&& node.spec.storage.retention_policy == RetentionPolicy::Delete ==> after.pvc
                is None
            &&& after.service is None
            &&& after.workload is None
            &&& after.config_map is None
        }),
{
}

/// Under the best-effort policy no failure blocks finalizer removal; under
/// the blocking policy exactly a failed deletion of a claim owed deletion
/// does.
pub proof fn lemma_cleanup_blocking(node: StellarNodeView, failures: CleanupFailures)
    ensures
        !spec_cleanup_blocked(node, CleanupPolicy::BestEffort, failures),
        spec_cleanup_blocked(node, CleanupPolicy::BlockOnStorageFailure, failures) <==> (
        node.spec.storage.retention_policy == RetentionPolicy::Delete && failures.pvc),
{
}

/// An invalid spec short-circuits: the node reports phase Failed with a
/// non-empty message.  (That no child resource is created is part of the
/// apply path's own contract: on a validation fault the cluster state is
/// returned unchanged.)
pub proof fn lemma_invalid_spec_fails(node: StellarNodeView)
    requires
        !spec_valid(node.spec),
    ensures
        ({
            let n = spec_failed_node(node, spec_fault_message(spec_first_fault(node.spec)->Some_0));
            &&& n.status matches Some(st)
            &&& st.phase == Phase::Failed
            &&& st.message matches Some(m) && m.len() > 0
        }),
{
    reveal_strlit("spec.replicas must not be negative");
    reveal_strlit("spec.storage.size must not be empty");
    reveal_strlit("spec.autoscaling requires 1 <= minReplicas <= maxReplicas");
}

/// A validation error is rescheduled on the longer delay class, a transient
/// cluster API failure on the shorter one, and the classes are ordered.
pub proof fn lemma_error_delay_classes(v: StringView, a: StringView)
    ensures
        spec_retry_seconds(ErrorView::ValidationError(v)) == RETRY_TERMINAL_SECONDS,
        spec_retry_seconds(ErrorView::ApiError(a)) == RETRY_TRANSIENT_SECONDS,
        RETRY_TRANSIENT_SECONDS < RETRY_TERMINAL_SECONDS,
{
}

} // verus!
