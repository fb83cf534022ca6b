//! The reconciliation engine: the control loop body that takes one declared
//! node and a lifecycle event and converges the cluster toward the
//! declaration.
//!
//! The engine is a two-state machine: while no deletion is requested every
//! event follows the apply path; once deletion is requested with the
//! finalizer token attached, the cleanup path runs, and stripping the token
//! lets the platform hard-delete the resource.  The apply path runs in
//! strict order — storage claim, configuration bundle, workload, network
//! endpoint, autoscaler, status — and the cleanup path in strict reverse
//! dependency order.  The process around the library performs the cluster
//! API calls; the observed ready-replica count is handed in as an input, a
//! failed read counting as zero.

use vstd::prelude::*;
use crate::types::{
    NodeType, Phase, StellarNode, StellarNodeSpecView, StellarNodeStatusView, StellarNodeView,
    StringView, spec_fault_message, spec_first_fault, spec_valid,
};
use crate::error::{Error, ErrorView, spec_is_retriable};
use crate::cluster::{
    ClusterState, ClusterStateView, delete_config_map, delete_hpa, delete_pvc, delete_service,
    delete_workload, ensure_config_map, ensure_deployment, ensure_hpa, ensure_pvc,
    ensure_service, ensure_statefulset, spec_delete_config_map, spec_delete_hpa,
    spec_delete_pvc, spec_delete_service, spec_delete_workload, spec_ensure_config_map,
    spec_ensure_hpa, spec_ensure_pvc, spec_ensure_service, spec_ensure_workload,
};
use crate::types::RetentionPolicy;

verus! {

/// Fixed resync delay after a successful apply cycle: the loop wakes again
/// regardless of success, to self-heal drift introduced outside it.
pub const RESYNC_SECONDS: u64 = 30;

/// Retry delay for transient failures.
pub const RETRY_TRANSIENT_SECONDS: u64 = 15;

/// Retry delay for failures that are terminal for the current spec
/// generation (they re-fail identically until the spec is edited).
pub const RETRY_TERMINAL_SECONDS: u64 = 60;

/// What the loop does after a reconcile: wake again after a delay, or wait
/// for the next change to the resource.
#[derive(Clone, Copy, Debug, PartialEq, Eq, Structural)]
pub enum Action {
    /// Wake again after the given number of seconds.
    Requeue { seconds: u64 },
    /// Wait for the next change.
    AwaitChange,
}

// ============================================================================
// Status projection
// ============================================================================

/// A status snapshot: phase, message, the generation last processed by a
/// successful apply, declared and observed replica counts.  Conditions are
/// not populated by the projection.
pub open spec fn spec_status(
    phase: Phase,
    message: Option<StringView>,
    observed_generation: Option<i64>,
    replicas: i32,
    ready_replicas: i32,
) -> StellarNodeStatusView {
    StellarNodeStatusView {
        phase,
        message,
        observed_generation,
        replicas,
        ready_replicas,
        conditions: Seq::empty(),
    }
}

/// The declared replica count a status reports: zero while suspended.
pub open spec fn spec_status_replicas(s: StellarNodeSpecView) -> i32 {
    if s.suspended {
        0i32
    } else {
        s.replicas
    }
}

/// The observed-generation value a node's current status carries, if any.
pub open spec fn spec_prev_observed(node: StellarNodeView) -> Option<i64> {
    match node.status {
        Some(s) => s.observed_generation,
        None => None,
    }
}

/// Write a status snapshot onto the node, replacing phase, message and
/// counts wholesale.  `observed_generation` is passed through unchanged: the
/// caller advances it only on a successful apply cycle, so that a status
/// whose observed generation trails the metadata generation signals "not yet
/// converged".
pub fn update_status(
    node: &mut StellarNode,
    phase: Phase,
    message: Option<String>,
    observed_generation: Option<i64>,
    ready_replicas: i32,
)
    ensures
        final(node)@ == (StellarNodeView {
            status: Some(
                spec_status(
                    phase,
                    message.deep_view(),
                    observed_generation,
                    spec_status_replicas(old(node)@.spec),
                    ready_replicas,
                ),
            ),
            ..old(node)@
        }),
{
    let replicas: i32 = if node.spec.suspended {
        0
    } else {
        node.spec.replicas
    };
    node.status = Some(
        crate::types::StellarNodeStatus {
            phase,
            message,
            observed_generation,
            replicas,
            ready_replicas,
            conditions: Vec::new(),
        },
    );
    proof {
        assert(node@ =~~= (StellarNodeView {
            status: Some(
                spec_status(
                    phase,
                    final(node)@.status->Some_0.message,
                    observed_generation,
                    spec_status_replicas(old(node)@.spec),
                    ready_replicas,
                ),
            ),
            ..old(node)@
        }));
    }
}

/// The ready-replica count derived from a workload read-back: the count the
/// read returned, or zero when the read failed or the workload reported
/// none.  Status freshness is best-effort, so a failed read never fails the
/// cycle.
pub open spec fn spec_ready_count(read: Option<i32>) -> i32 {
    match read {
        Some(v) => v,
        None => 0i32,
    }
}

/// Derive the observed ready-replica count from a workload read-back.
pub fn get_ready_replicas(read: Option<i32>) -> (r: i32)
    ensures
        r == spec_ready_count(read),
{
    match read {
        Some(v) => v,
        None => 0,
    }
}

// ============================================================================
// The apply path
// ============================================================================

/// The cluster state after one full apply pass: storage claim ensured
/// (get-or-create), configuration bundle, workload and network endpoint
/// regenerated, autoscaler ensured where called for — in that order.
pub open spec fn spec_apply_children(node: StellarNodeView, c: ClusterStateView)
    -> ClusterStateView {
    spec_ensure_hpa(
        node,
        spec_ensure_service(
            node,
            spec_ensure_workload(node, spec_ensure_config_map(node, spec_ensure_pvc(node, c))),
        ),
    )
}

/// The final phase of a successful apply: Suspended while the node is
/// suspended, Running otherwise.
pub open spec fn spec_final_phase(s: StellarNodeSpecView) -> Phase {
    if s.suspended {
        Phase::Suspended
    } else {
        Phase::Running
    }
}

/// The node after a successful apply: the final status snapshot written, the
/// observed generation advanced to the processed generation, and the
/// finalizer token attached.
pub open spec fn spec_applied_node(node: StellarNodeView, ready: i32) -> StellarNodeView {
    StellarNodeView {
        status: Some(
            spec_status(
                spec_final_phase(node.spec),
                Some("Resources created successfully"@),
                Some(node.generation),
                spec_status_replicas(node.spec),
                ready,
            ),
        ),
        finalizer_attached: true,
        ..node
    }
}

/// The node after a failed validation: phase Failed with the fault's
/// message, the observed generation left where it was, no finalizer change.
pub open spec fn spec_failed_node(node: StellarNodeView, fault_message: StringView)
    -> StellarNodeView {
    StellarNodeView {
        status: Some(
            spec_status(
                Phase::Failed,
                Some(fault_message),
                spec_prev_observed(node),
                spec_status_replicas(node.spec),
                0i32,
            ),
        ),
        ..node
    }
}

/// One apply cycle for a present node.
///
/// An invalid spec short-circuits: phase Failed is written with the fault's
/// message, no child is touched, and the validation error is surfaced.  For
/// a valid spec the five child operations run in strict order, the final
/// status (Suspended or Running) is written with the observed ready count,
/// the finalizer token is attached, and the fixed resync delay is returned.
pub fn apply_stellar_node(
    node: &mut StellarNode,
    cluster: &mut ClusterState,
    observed_ready: Option<i32>,
) -> (r: Result<Action, Error>)
    ensures
        spec_first_fault(old(node)@.spec) matches Some(f) ==> {
            &&& r matches Err(e) && e@ matches ErrorView::ValidationError(m) && m
                == spec_fault_message(f)
            &&& final(cluster)@ == old(cluster)@
            &&& final(node)@ == spec_failed_node(old(node)@, spec_fault_message(f))
        },
        spec_valid(old(node)@.spec) ==> {
            &&& r == Result::<Action, Error>::Ok(Action::Requeue { seconds: RESYNC_SECONDS })
            &&& final(cluster)@ == spec_apply_children(old(node)@, old(cluster)@)
            &&& final(node)@ == spec_applied_node(old(node)@, spec_ready_count(observed_ready))
        },
{
    let prev_observed: Option<i64> = match &node.status {
        Some(s) => s.observed_generation,
        None => None,
    };

    // Step 1: validate; on failure write phase Failed and stop without
    // touching any child.
    match node.spec.validate() {
        Err(f) => {
            let msg = f.message();
            update_status(node, Phase::Failed, Some(msg.clone()), prev_observed, 0);
            proof {
                assert(node@ =~~= spec_failed_node(old(node)@, spec_fault_message(f)));
            }
            return Err(Error::ValidationError(msg));
        },
        Ok(()) => {},
    }

    // Step 2: suspension means "provision everything except compute", so an
    // interim Suspended status is noted and the cycle proceeds.
    if node.spec.suspended {
        update_status(
            node,
            Phase::Suspended,
            Some(String::from_str("Node is suspended")),
            prev_observed,
            0,
        );
    }

    // Step 3: interim Creating status for observability of in-progress work.
    update_status(
        node,
        Phase::Creating,
        Some(String::from_str("Creating resources")),
        prev_observed,
        0,
    );

    // Steps 4-8: the five child operations, in strict order.
    ensure_pvc(node, cluster);
    ensure_config_map(node, cluster);
    match node.spec.node_type {
        NodeType::Validator => ensure_statefulset(node, cluster),
        NodeType::Horizon | NodeType::SorobanRpc => ensure_deployment(node, cluster),
    }
    ensure_service(node, cluster);
    ensure_hpa(node, cluster);

    // Step 9: read back the observed ready-replica count; a failed read
    // counts as zero rather than failing the cycle.
    let ready = get_ready_replicas(observed_ready);

    // Step 10: final status with observed counts; the observed generation
    // advances only here, on success.
    let phase = if node.spec.suspended {
        Phase::Suspended
    } else {
        Phase::Running
    };
    let generation: i64 = node.generation;
    update_status(
        node,
        phase,
        Some(String::from_str("Resources created successfully")),
        Some(generation),
        ready,
    );

    // The finalizer token is attached from the first successful apply on.
    node.finalizer_attached = true;

    proof {
        assert(node@ =~~= spec_applied_node(old(node)@, spec_ready_count(observed_ready)));
        assert(cluster@ =~~= spec_apply_children(old(node)@, old(cluster)@));
    }

    // Step 11: fixed resync delay regardless of success, to self-heal drift.
    Ok(Action::Requeue { seconds: RESYNC_SECONDS })
}

// ============================================================================
// The cleanup path
// ============================================================================

/// Which cleanup steps' cluster API calls failed in one pass, as observed by
/// the process driving the loop.  A flag set to true means the deletion call
/// for that child failed, leaving the child in place for this pass.
#[derive(Clone, Copy, Debug, PartialEq, Eq, Structural)]
pub struct CleanupFailures {
    pub service: bool,
    pub workload: bool,
    pub config_map: bool,
    pub pvc: bool,
    pub hpa: bool,
}

/// No cleanup step failed.
pub open spec fn spec_no_failures() -> CleanupFailures {
    CleanupFailures { service: false, workload: false, config_map: false, pvc: false, hpa: false }
}

impl CleanupFailures {
    /// The pass in which every deletion call succeeded.
    pub fn none() -> (r: CleanupFailures)
        ensures
            r == spec_no_failures(),
    {
        CleanupFailures {
            service: false,
            workload: false,
            config_map: false,
            pvc: false,
            hpa: false,
        }
    }
}

/// What a failed cleanup step means for finalizer removal.  Whether silently
/// finishing cleanup after a failed child deletion is the right policy is an
/// open design question — in particular for a storage claim whose data must
/// not survive under the Delete retention policy — so the choice is
/// configurable rather than assumed.
#[derive(Clone, Copy, Debug, PartialEq, Eq, Structural)]
pub enum CleanupPolicy {
    /// Best-effort: every failure is recorded but cleanup always reports
    /// completion and the finalizer token is stripped.
    BestEffort,
    /// A failure to delete a storage claim that must not survive (retention
    /// policy Delete) blocks finalizer removal, so deletion retries instead
    /// of leaking the claim.
    BlockOnStorageFailure,
}

/// The cluster state after a cleanup pass, in strict reverse dependency
/// order: network endpoint, workload and configuration bundle deleted, the
/// storage claim deleted only under the Delete retention policy, and the
/// autoscaler deleted where one was configured.  A step whose deletion call
/// failed leaves its child in place.
pub open spec fn spec_cleanup_children(
    node: StellarNodeView,
    c: ClusterStateView,
    failures: CleanupFailures,
) -> ClusterStateView {
    let c1 = if !failures.service {
        spec_delete_service(c)
    } else {
        c
    };
    let c2 = if !failures.workload {
        spec_delete_workload(c1)
    } else {
        c1
    };
    let c3 = if !failures.config_map {
        spec_delete_config_map(c2)
    } else {
        c2
    };
    let c4 = if node.spec.storage.retention_policy == RetentionPolicy::Delete && !failures.pvc {
        spec_delete_pvc(c3)
    } else {
        c3
    };
    if !failures.hpa {
        spec_delete_hpa(node, c4)
    } else {
        c4
    }
}

/// Whether a cleanup pass is blocked from completing: only under the
/// blocking policy, and only when a claim that must not survive could not be
/// deleted.
pub open spec fn spec_cleanup_blocked(
    node: StellarNodeView,
    policy: CleanupPolicy,
    failures: CleanupFailures,
) -> bool {
    policy == CleanupPolicy::BlockOnStorageFailure && node.spec.storage.retention_policy
        == RetentionPolicy::Delete && failures.pvc
}

/// Whether a cleanup pass with the given failures may strip the finalizer.
pub fn cleanup_complete(
    node: &StellarNode,
    policy: CleanupPolicy,
    failures: &CleanupFailures,
) -> (done: bool)
    ensures
        done == !spec_cleanup_blocked(node@, policy, *failures),
{
    !(policy == CleanupPolicy::BlockOnStorageFailure && node.spec.should_delete_pvc()
        && failures.pvc)
}

/// One cleanup cycle for a node whose deletion was requested, given which
/// deletion calls failed in this pass.
///
/// Every step is attempted in strict reverse dependency order regardless of
/// earlier failures; the storage claim survives deliberately under the
/// Retain policy.  Under the best-effort policy cleanup always reports
/// completion and strips the finalizer token once all steps have been
/// attempted; under the blocking policy a failure to delete a claim owed
/// deletion keeps the token, surfacing a transient error so the pass
/// retries.
pub fn cleanup_stellar_node(
    node: &mut StellarNode,
    cluster: &mut ClusterState,
    policy: CleanupPolicy,
    failures: &CleanupFailures,
) -> (r: Result<Action, Error>)
    ensures
        final(cluster)@ == spec_cleanup_children(old(node)@, old(cluster)@, *failures),
        !spec_cleanup_blocked(old(node)@, policy, *failures) ==> {
            &&& r == Result::<Action, Error>::Ok(Action::AwaitChange)
            &&& final(node)@ == (StellarNodeView { finalizer_attached: false, ..old(node)@ })
        },
        spec_cleanup_blocked(old(node)@, policy, *failures) ==> {
            &&& r matches Err(e) && e@ matches ErrorView::ApiError(m) && m
                == "storage claim deletion failed; keeping finalizer"@
            &&& final(node)@ == old(node)@
        },
{
    if !failures.service {
        delete_service(node, cluster);
    }
    if !failures.workload {
        delete_workload(node, cluster);
    }
    if !failures.config_map {
        delete_config_map(node, cluster);
    }
    if node.spec.should_delete_pvc() && !failures.pvc {
        delete_pvc(node, cluster);
    }
    if !failures.hpa {
        delete_hpa(node, cluster);
    }

    proof {
        assert(cluster@ =~~= spec_cleanup_children(old(node)@, old(cluster)@, *failures));
    }

    if !cleanup_complete(node, policy, failures) {
        return Err(
            Error::ApiError(String::from_str("storage claim deletion failed; keeping finalizer")),
        );
    }

    // All steps attempted: strip the finalizer token and let the platform
    // hard-delete the resource.
    node.finalizer_attached = false;

    proof {
        assert(node@ =~~= (StellarNodeView { finalizer_attached: false, ..old(node)@ }));
    }

    Ok(Action::AwaitChange)
}

// ============================================================================
// Dispatch and error policy
// ============================================================================

/// One reconcile for one node: the apply path while no deletion is
/// requested; the cleanup path once deletion is requested with the finalizer
/// token attached; nothing once the token is gone (the platform hard-deletes
/// the resource).
pub fn reconcile(
    node: &mut StellarNode,
    cluster: &mut ClusterState,
    observed_ready: Option<i32>,
    policy: CleanupPolicy,
    failures: &CleanupFailures,
) -> (r: Result<Action, Error>)
    ensures
        !old(node).deletion_requested && spec_valid(old(node)@.spec) ==> {
            &&& r == Result::<Action, Error>::Ok(Action::Requeue { seconds: RESYNC_SECONDS })
            &&& final(cluster)@ == spec_apply_children(old(node)@, old(cluster)@)
            &&& final(node)@ == spec_applied_node(old(node)@, spec_ready_count(observed_ready))
        },
        (!old(node).deletion_requested && !spec_valid(old(node)@.spec)) ==> {
            let f = spec_first_fault(old(node)@.spec)->Some_0;
            &&& r matches Err(e) && e@ matches ErrorView::ValidationError(m) && m
                == spec_fault_message(f)
            &&& final(cluster)@ == old(cluster)@
            &&& final(node)@ == spec_failed_node(old(node)@, spec_fault_message(f))
        },
        old(node).deletion_requested && old(node).finalizer_attached ==> {
            &&& final(cluster)@ == spec_cleanup_children(old(node)@, old(cluster)@, *failures)
            &&& !spec_cleanup_blocked(old(node)@, policy, *failures) ==> r == Result::<
                Action,
                Error,
            >::Ok(Action::AwaitChange) && final(node)@ == (StellarNodeView {
                finalizer_attached: false,
                ..old(node)@
            })
            &&& spec_cleanup_blocked(old(node)@, policy, *failures) ==> r is Err && final(node)@
                == old(node)@
        },
        old(node).deletion_requested && !old(node).finalizer_attached ==> {
            &&& r == Result::<Action, Error>::Ok(Action::AwaitChange)
            &&& final(cluster)@ == old(cluster)@
            &&& final(node)@ == old(node)@
        },
{
    if node.deletion_requested {
        if node.finalizer_attached {
            cleanup_stellar_node(node, cluster, policy, failures)
        } else {
            Ok(Action::AwaitChange)
        }
    } else {
        apply_stellar_node(node, cluster, observed_ready)
    }
}

/// The retry delay scheduled for an error: the shorter class for transient
/// cluster API failures, the longer class for failures that are terminal for
/// the current spec generation.
pub open spec fn spec_retry_seconds(e: ErrorView) -> u64 {
    if spec_is_retriable(e) {
        RETRY_TRANSIENT_SECONDS
    } else {
        RETRY_TERMINAL_SECONDS
    }
}

/// Decide how to reschedule after a reconcile error.
pub fn error_policy(node: &StellarNode, error: &Error) -> (r: Action)
    ensures
        r == (Action::Requeue { seconds: spec_retry_seconds(error@) }),
{
    let seconds: u64 = if error.is_retriable() {
        RETRY_TRANSIENT_SECONDS
    } else {
        RETRY_TERMINAL_SECONDS
    };
    Action::Requeue { seconds }
}

} // verus!
