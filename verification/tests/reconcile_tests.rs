//! Scenario tests for the reconciliation engine: convergence, idempotence,
//! suspension, deletion with both retention policies, validation
//! short-circuits, and retry scheduling.

use stellar_k8s::children::WorkloadKind;
use stellar_k8s::cluster::ClusterState;
use stellar_k8s::dto::{ErrorResponse, node_detail, node_summary};
use stellar_k8s::error::Error;
use stellar_k8s::reconciler::{
    Action, CleanupFailures, CleanupPolicy, RESYNC_SECONDS, RETRY_TERMINAL_SECONDS,
    RETRY_TRANSIENT_SECONDS, apply_stellar_node, cleanup_complete, cleanup_stellar_node,
    error_policy, get_ready_replicas, reconcile, update_status,
};
use stellar_k8s::types::{
    AutoscalingConfig, NodeType, Phase, ResourceRequirements, RetentionPolicy, StellarNetwork,
    StellarNode, StellarNodeSpec, StorageConfig,
};

fn make_node(node_type: NodeType) -> StellarNode {
    StellarNode {
        name: "alpha".to_string(),
        namespace: "stellar".to_string(),
        uid: "uid-1234".to_string(),
        generation: 4,
        spec: StellarNodeSpec {
            node_type,
            network: StellarNetwork::Mainnet,
            version: "20.0.0".to_string(),
            replicas: 3,
            suspended: false,
            storage: StorageConfig::default(),
            resources: ResourceRequirements::default(),
            validator_config: None,
            horizon_config: None,
            soroban_config: None,
            database: None,
            autoscaling: None,
        },
        status: None,
        deletion_requested: false,
        finalizer_attached: false,
    }
}

#[test]
fn apply_converges_from_empty() {
    let mut node = make_node(NodeType::Horizon);
    let mut cluster = ClusterState::empty();
    let action = apply_stellar_node(&mut node, &mut cluster, Some(3)).expect("apply succeeds");
    assert_eq!(action, Action::Requeue { seconds: RESYNC_SECONDS });

    assert!(cluster.pvc.is_some());
    assert!(cluster.config_map.is_some());
    assert!(cluster.service.is_some());
    assert!(cluster.hpa.is_none());
    let w = cluster.workload.as_ref().expect("workload expected");
    assert_eq!(w.kind, WorkloadKind::Deployment);
    assert_eq!(w.replicas, 3);

    let st = node.status.as_ref().expect("status written");
    assert_eq!(st.phase, Phase::Running);
    assert_eq!(st.message.as_deref(), Some("Resources created successfully"));
    assert_eq!(st.observed_generation, Some(4));
    assert_eq!(st.replicas, 3);
    assert_eq!(st.ready_replicas, 3);
    assert!(node.finalizer_attached);
}

#[test]
fn apply_twice_is_idempotent() {
    let mut node = make_node(NodeType::Horizon);
    let mut cluster = ClusterState::empty();
    apply_stellar_node(&mut node, &mut cluster, Some(3)).unwrap();
    let first_cluster = cluster.clone();
    let first_status = node.status.clone();
    apply_stellar_node(&mut node, &mut cluster, Some(3)).unwrap();
    assert_eq!(cluster, first_cluster);
    assert_eq!(node.status, first_status);
}

#[test]
fn validator_replicas_pinned_to_one() {
    let mut node = make_node(NodeType::Validator);
    node.spec.replicas = 5;
    let mut cluster = ClusterState::empty();
    apply_stellar_node(&mut node, &mut cluster, Some(1)).unwrap();
    let w = cluster.workload.as_ref().expect("workload expected");
    assert_eq!(w.kind, WorkloadKind::StatefulSet);
    assert_eq!(w.replicas, 1);
    assert_eq!(w.service_name.as_deref(), Some("alpha-headless"));
}

#[test]
fn suspension_scales_workload_to_zero_and_keeps_storage() {
    let mut node = make_node(NodeType::Horizon);
    let mut cluster = ClusterState::empty();
    apply_stellar_node(&mut node, &mut cluster, Some(3)).unwrap();
    let pvc_before = cluster.pvc.clone().expect("claim exists");
    let cm_before = cluster.config_map.clone().expect("bundle exists");

    node.spec.suspended = true;
    apply_stellar_node(&mut node, &mut cluster, Some(0)).unwrap();

    let w = cluster.workload.as_ref().expect("workload still present");
    assert_eq!(w.replicas, 0);
    let pvc_after = cluster.pvc.clone().expect("claim survives suspension");
    assert_eq!(pvc_after.name, pvc_before.name);
    assert_eq!(pvc_after.size, pvc_before.size);
    assert_eq!(pvc_after, pvc_before);
    assert_eq!(cluster.config_map.clone().unwrap(), cm_before);

    let st = node.status.as_ref().unwrap();
    assert_eq!(st.phase, Phase::Suspended);
    assert_eq!(st.replicas, 0);
}

#[test]
fn cleanup_retains_claim_under_retain_policy() {
    let mut node = make_node(NodeType::Horizon);
    node.spec.storage.retention_policy = RetentionPolicy::Retain;
    let mut cluster = ClusterState::empty();
    apply_stellar_node(&mut node, &mut cluster, Some(3)).unwrap();
    assert!(node.finalizer_attached);

    let action = cleanup_stellar_node(&mut node, &mut cluster, CleanupPolicy::BestEffort, &CleanupFailures::none())
        .expect("cleanup completes");
    assert_eq!(action, Action::AwaitChange);
    assert!(cluster.pvc.is_some(), "claim must survive under Retain");
    assert!(cluster.service.is_none());
    assert!(cluster.workload.is_none());
    assert!(cluster.config_map.is_none());
    assert!(!node.finalizer_attached, "finalizer token stripped");
}

#[test]
fn cleanup_deletes_claim_under_delete_policy() {
    let mut node = make_node(NodeType::Horizon);
    node.spec.storage.retention_policy = RetentionPolicy::Delete;
    let mut cluster = ClusterState::empty();
    apply_stellar_node(&mut node, &mut cluster, Some(3)).unwrap();

    cleanup_stellar_node(&mut node, &mut cluster, CleanupPolicy::BestEffort, &CleanupFailures::none())
        .unwrap();
    assert!(cluster.pvc.is_none(), "claim must be gone under Delete");
    assert!(!node.finalizer_attached);
}

#[test]
fn cleanup_removes_configured_autoscaler() {
    let mut node = make_node(NodeType::Horizon);
    node.spec.autoscaling = Some(AutoscalingConfig {
        min_replicas: 1,
        max_replicas: 4,
        custom_metrics: vec![],
    });
    let mut cluster = ClusterState::empty();
    apply_stellar_node(&mut node, &mut cluster, Some(1)).unwrap();
    assert!(cluster.hpa.is_some());

    cleanup_stellar_node(&mut node, &mut cluster, CleanupPolicy::BestEffort, &CleanupFailures::none())
        .unwrap();
    assert!(cluster.hpa.is_none());
}

#[test]
fn cleanup_best_effort_completes_despite_failures() {
    let mut node = make_node(NodeType::Horizon);
    node.spec.storage.retention_policy = RetentionPolicy::Delete;
    let mut cluster = ClusterState::empty();
    apply_stellar_node(&mut node, &mut cluster, Some(3)).unwrap();

    let mut failures = CleanupFailures::none();
    failures.workload = true;
    failures.pvc = true;
    let action = cleanup_stellar_node(&mut node, &mut cluster, CleanupPolicy::BestEffort, &failures)
        .expect("best-effort cleanup always completes");
    assert_eq!(action, Action::AwaitChange);
    assert!(cluster.workload.is_some(), "failed deletion leaves the workload this pass");
    assert!(cluster.pvc.is_some(), "failed deletion leaves the claim this pass");
    assert!(cluster.service.is_none());
    assert!(!node.finalizer_attached, "best-effort strips the token regardless");
}

#[test]
fn cleanup_blocking_policy_keeps_finalizer_on_storage_failure() {
    let mut node = make_node(NodeType::Horizon);
    node.spec.storage.retention_policy = RetentionPolicy::Delete;
    let mut cluster = ClusterState::empty();
    apply_stellar_node(&mut node, &mut cluster, Some(3)).unwrap();

    let mut failures = CleanupFailures::none();
    failures.pvc = true;
    let err = cleanup_stellar_node(
        &mut node,
        &mut cluster,
        CleanupPolicy::BlockOnStorageFailure,
        &failures,
    )
    .unwrap_err();
    assert!(matches!(err, Error::ApiError(_)));
    assert!(node.finalizer_attached, "token kept so deletion retries");
    assert!(cluster.pvc.is_some());

    // A later pass whose deletion succeeds completes and strips the token.
    let action = cleanup_stellar_node(
        &mut node,
        &mut cluster,
        CleanupPolicy::BlockOnStorageFailure,
        &CleanupFailures::none(),
    )
    .expect("cleanup completes once the claim is gone");
    assert_eq!(action, Action::AwaitChange);
    assert!(cluster.pvc.is_none());
    assert!(!node.finalizer_attached);
}

#[test]
fn cleanup_blocking_policy_ignores_storage_failure_under_retain() {
    let mut node = make_node(NodeType::Horizon);
    node.spec.storage.retention_policy = RetentionPolicy::Retain;
    let mut failures = CleanupFailures::none();
    failures.pvc = true;
    assert!(cleanup_complete(&node, CleanupPolicy::BlockOnStorageFailure, &failures));
    assert!(cleanup_complete(&node, CleanupPolicy::BestEffort, &failures));
}

#[test]
fn no_autoscaler_for_validator() {
    let mut node = make_node(NodeType::Validator);
    node.spec.autoscaling = Some(AutoscalingConfig {
        min_replicas: 1,
        max_replicas: 4,
        custom_metrics: vec![],
    });
    let mut cluster = ClusterState::empty();
    apply_stellar_node(&mut node, &mut cluster, Some(1)).unwrap();
    assert!(cluster.hpa.is_none());
}

#[test]
fn invalid_spec_short_circuits() {
    let mut node = make_node(NodeType::Horizon);
    node.spec.replicas = -1;
    let mut cluster = ClusterState::empty();
    let err = apply_stellar_node(&mut node, &mut cluster, None).unwrap_err();
    match &err {
        Error::ValidationError(m) => assert!(!m.is_empty()),
        _ => panic!("expected a validation error"),
    }
    // No child resource was created.
    assert!(cluster.pvc.is_none());
    assert!(cluster.config_map.is_none());
    assert!(cluster.workload.is_none());
    assert!(cluster.service.is_none());
    assert!(cluster.hpa.is_none());

    let st = node.status.as_ref().expect("failed status written");
    assert_eq!(st.phase, Phase::Failed);
    assert!(st.message.as_ref().is_some_and(|m| !m.is_empty()));
    assert_eq!(st.observed_generation, None, "generation not observed on failure");
    assert!(!node.finalizer_attached);
}

#[test]
fn storage_claim_is_immutable_once_provisioned() {
    let mut node = make_node(NodeType::Horizon);
    let mut cluster = ClusterState::empty();
    apply_stellar_node(&mut node, &mut cluster, Some(3)).unwrap();
    let before = cluster.pvc.clone().unwrap();

    node.spec.storage.size = "500Gi".to_string();
    node.generation = 5;
    apply_stellar_node(&mut node, &mut cluster, Some(3)).unwrap();
    let after = cluster.pvc.clone().unwrap();
    assert_eq!(after, before, "existing claim is never updated");
    assert_eq!(after.size, "100Gi");
}

#[test]
fn error_policy_delay_classes() {
    let node = make_node(NodeType::Horizon);
    let validation = Error::ValidationError("bad spec".to_string());
    let transient = Error::ApiError("conflict".to_string());
    let config = Error::ConfigError("missing resource type".to_string());
    assert_eq!(
        error_policy(&node, &validation),
        Action::Requeue { seconds: RETRY_TERMINAL_SECONDS }
    );
    assert_eq!(
        error_policy(&node, &transient),
        Action::Requeue { seconds: RETRY_TRANSIENT_SECONDS }
    );
    assert_eq!(
        error_policy(&node, &config),
        Action::Requeue { seconds: RETRY_TERMINAL_SECONDS }
    );
    assert!(RETRY_TRANSIENT_SECONDS < RETRY_TERMINAL_SECONDS);
    assert_eq!(RETRY_TRANSIENT_SECONDS, 15);
    assert_eq!(RETRY_TERMINAL_SECONDS, 60);
    assert_eq!(RESYNC_SECONDS, 30);
}

#[test]
fn error_retriability() {
    assert!(Error::ApiError("x".to_string()).is_retriable());
    assert!(!Error::ValidationError("x".to_string()).is_retriable());
    assert!(!Error::ConfigError("x".to_string()).is_retriable());
}

#[test]
fn ready_count_defaults_to_zero() {
    assert_eq!(get_ready_replicas(Some(2)), 2);
    assert_eq!(get_ready_replicas(None), 0);
}

#[test]
fn reconcile_dispatches_apply() {
    let mut node = make_node(NodeType::Horizon);
    let mut cluster = ClusterState::empty();
    let action = reconcile(&mut node, &mut cluster, Some(1), CleanupPolicy::BestEffort, &CleanupFailures::none())
        .unwrap();
    assert_eq!(action, Action::Requeue { seconds: RESYNC_SECONDS });
    assert!(cluster.workload.is_some());
}

#[test]
fn reconcile_dispatches_cleanup_when_finalized() {
    let mut node = make_node(NodeType::Horizon);
    let mut cluster = ClusterState::empty();
    reconcile(&mut node, &mut cluster, Some(1), CleanupPolicy::BestEffort, &CleanupFailures::none())
        .unwrap();

    node.deletion_requested = true;
    let action = reconcile(&mut node, &mut cluster, None, CleanupPolicy::BestEffort, &CleanupFailures::none())
        .unwrap();
    assert_eq!(action, Action::AwaitChange);
    assert!(cluster.workload.is_none());
    assert!(!node.finalizer_attached);
}

#[test]
fn reconcile_without_finalizer_leaves_everything() {
    let mut node = make_node(NodeType::Horizon);
    node.deletion_requested = true;
    node.finalizer_attached = false;
    let mut cluster = ClusterState::empty();
    let before_node = node.clone();
    let action = reconcile(&mut node, &mut cluster, None, CleanupPolicy::BestEffort, &CleanupFailures::none())
        .unwrap();
    assert_eq!(action, Action::AwaitChange);
    assert_eq!(node, before_node);
    assert_eq!(cluster, ClusterState::empty());
}

#[test]
fn update_status_reports_zero_replicas_while_suspended() {
    let mut node = make_node(NodeType::Horizon);
    node.spec.suspended = true;
    update_status(&mut node, Phase::Suspended, Some("Node is suspended".to_string()), None, 0);
    let st = node.status.as_ref().unwrap();
    assert_eq!(st.phase, Phase::Suspended);
    assert_eq!(st.replicas, 0);
    assert!(st.conditions.is_empty());
}

#[test]
fn node_summary_projection() {
    let mut node = make_node(NodeType::Horizon);
    let mut cluster = ClusterState::empty();
    apply_stellar_node(&mut node, &mut cluster, Some(2)).unwrap();
    let s = node_summary(&node);
    assert_eq!(s.name, "alpha");
    assert_eq!(s.namespace, "stellar");
    assert_eq!(s.node_type, NodeType::Horizon);
    assert_eq!(s.phase, "Running");
    assert_eq!(s.replicas, 3);
    assert_eq!(s.ready_replicas, 2);
}

#[test]
fn node_summary_unknown_before_status() {
    let node = make_node(NodeType::Horizon);
    let s = node_summary(&node);
    assert_eq!(s.phase, "Unknown");
    assert_eq!(s.replicas, 0);
    assert_eq!(s.ready_replicas, 0);
}

#[test]
fn node_detail_projection() {
    let mut node = make_node(NodeType::SorobanRpc);
    let mut cluster = ClusterState::empty();
    apply_stellar_node(&mut node, &mut cluster, Some(3)).unwrap();
    let d = node_detail(&node, Some("2026-01-01T00:00:00Z".to_string()));
    assert_eq!(d.name, "alpha");
    assert_eq!(d.version, "20.0.0");
    assert_eq!(d.status.phase, Phase::Running);
    assert_eq!(d.created_at.as_deref(), Some("2026-01-01T00:00:00Z"));
}

#[test]
fn error_response_construction() {
    let e = ErrorResponse::new("not_found", "no such node");
    assert_eq!(e.error, "not_found");
    assert_eq!(e.message, "no such node");
}
