//! Tests for the declared-state types: networks, kinds, defaults,
//! validation and conditions.

use stellar_k8s::types::{
    AutoscalingConfig, Condition, NodeType, Phase, ResourceRequirements, ResourceSpec,
    RetentionPolicy, StellarNetwork, StellarNodeSpec, StorageConfig, ValidationFault,
    default_ingest_workers, default_max_events, default_true,
};

fn base_spec() -> StellarNodeSpec {
    StellarNodeSpec {
        node_type: NodeType::Horizon,
        network: StellarNetwork::Testnet,
        version: "2.27.0".to_string(),
        replicas: 2,
        suspended: false,
        storage: StorageConfig::default(),
        resources: ResourceRequirements::default(),
        validator_config: None,
        horizon_config: None,
        soroban_config: None,
        database: None,
        autoscaling: None,
    }
}

#[test]
fn passphrase_mainnet() {
    assert_eq!(
        StellarNetwork::Mainnet.passphrase(),
        "Public Global Stellar Network ; September 2015"
    );
}

#[test]
fn passphrase_testnet() {
    assert_eq!(StellarNetwork::Testnet.passphrase(), "Test SDF Network ; September 2015");
}

#[test]
fn passphrase_futurenet() {
    assert_eq!(
        StellarNetwork::Futurenet.passphrase(),
        "Test SDF Future Network ; October 2022"
    );
}

#[test]
fn passphrase_custom_is_literal() {
    let n = StellarNetwork::Custom("My Private Net ; 2030".to_string());
    assert_eq!(n.passphrase(), "My Private Net ; 2030");
}

#[test]
fn node_type_names() {
    assert_eq!(NodeType::Validator.name(), "Validator");
    assert_eq!(NodeType::Horizon.name(), "Horizon");
    assert_eq!(NodeType::SorobanRpc.name(), "SorobanRpc");
    assert_eq!(NodeType::Validator.component(), "validator");
    assert_eq!(NodeType::Horizon.component(), "horizon");
    assert_eq!(NodeType::SorobanRpc.component(), "sorobanrpc");
}

#[test]
fn resource_requirements_default() {
    let r = ResourceRequirements::default();
    assert_eq!(r.requests.cpu, "500m");
    assert_eq!(r.requests.memory, "1Gi");
    assert_eq!(r.limits.cpu, "2");
    assert_eq!(r.limits.memory, "4Gi");
}

#[test]
fn storage_config_default() {
    let s = StorageConfig::default();
    assert_eq!(s.storage_class, "standard");
    assert_eq!(s.size, "100Gi");
    assert_eq!(s.retention_policy, RetentionPolicy::Delete);
    assert!(s.annotations.is_none());
}

#[test]
fn retention_policy_default_is_delete() {
    assert_eq!(RetentionPolicy::default(), RetentionPolicy::Delete);
}

#[test]
fn serde_defaults() {
    assert!(default_true());
    assert_eq!(default_ingest_workers(), 1);
    assert_eq!(default_max_events(), 10000);
}

#[test]
fn validate_accepts_base_spec() {
    assert!(base_spec().validate().is_ok());
}

#[test]
fn validate_rejects_negative_replicas() {
    let mut s = base_spec();
    s.replicas = -1;
    let fault = s.validate().unwrap_err();
    assert_eq!(fault, ValidationFault::NegativeReplicas);
    assert!(!fault.message().is_empty());
    assert_eq!(fault.message(), "spec.replicas must not be negative");
}

#[test]
fn validate_rejects_blank_storage_size() {
    let mut s = base_spec();
    s.storage.size = String::new();
    let fault = s.validate().unwrap_err();
    assert_eq!(fault, ValidationFault::BlankStorageSize);
    assert!(!fault.message().is_empty());
}

#[test]
fn validate_rejects_zero_min_replicas() {
    let mut s = base_spec();
    s.autoscaling = Some(AutoscalingConfig {
        min_replicas: 0,
        max_replicas: 3,
        custom_metrics: vec![],
    });
    assert_eq!(s.validate().unwrap_err(), ValidationFault::AutoscalingBounds);
}

#[test]
fn validate_rejects_inverted_bounds() {
    let mut s = base_spec();
    s.autoscaling = Some(AutoscalingConfig {
        min_replicas: 4,
        max_replicas: 2,
        custom_metrics: vec![],
    });
    assert_eq!(s.validate().unwrap_err(), ValidationFault::AutoscalingBounds);
}

#[test]
fn validate_accepts_sane_autoscaling() {
    let mut s = base_spec();
    s.autoscaling = Some(AutoscalingConfig {
        min_replicas: 1,
        max_replicas: 5,
        custom_metrics: vec!["rpc_requests".to_string()],
    });
    assert!(s.validate().is_ok());
}

#[test]
fn validate_reports_first_fault() {
    let mut s = base_spec();
    s.replicas = -3;
    s.storage.size = String::new();
    assert_eq!(s.validate().unwrap_err(), ValidationFault::NegativeReplicas);
}

#[test]
fn container_image_per_kind() {
    let mut s = base_spec();
    s.version = "21.0.1".to_string();
    s.node_type = NodeType::Validator;
    assert_eq!(s.container_image(), "stellar/stellar-core:21.0.1");
    s.node_type = NodeType::Horizon;
    assert_eq!(s.container_image(), "stellar/stellar-horizon:21.0.1");
    s.node_type = NodeType::SorobanRpc;
    assert_eq!(s.container_image(), "stellar/soroban-rpc:21.0.1");
}

#[test]
fn should_delete_pvc_follows_policy() {
    let mut s = base_spec();
    s.storage.retention_policy = RetentionPolicy::Delete;
    assert!(s.should_delete_pvc());
    s.storage.retention_policy = RetentionPolicy::Retain;
    assert!(!s.should_delete_pvc());
}

#[test]
fn wants_autoscaler_only_stateless_with_config() {
    let mut s = base_spec();
    assert!(!s.wants_autoscaler());
    s.autoscaling = Some(AutoscalingConfig {
        min_replicas: 1,
        max_replicas: 3,
        custom_metrics: vec![],
    });
    assert!(s.wants_autoscaler());
    s.node_type = NodeType::Validator;
    assert!(!s.wants_autoscaler());
}

#[test]
fn condition_ready_true() {
    let c = Condition::ready(true, "AllGood", "everything running");
    assert_eq!(c.type_, "Ready");
    assert_eq!(c.status, "True");
    assert_eq!(c.reason, "AllGood");
    assert_eq!(c.message, "everything running");
}

#[test]
fn condition_ready_false() {
    let c = Condition::ready(false, "Degraded", "replicas missing");
    assert_eq!(c.status, "False");
}

#[test]
fn condition_progressing() {
    let c = Condition::progressing("Creating", "resources being created");
    assert_eq!(c.type_, "Progressing");
    assert_eq!(c.status, "True");
    assert_eq!(c.reason, "Creating");
}

#[test]
fn phase_names() {
    assert_eq!(Phase::Creating.name(), "Creating");
    assert_eq!(Phase::Suspended.name(), "Suspended");
    assert_eq!(Phase::Failed.name(), "Failed");
    assert_eq!(Phase::Running.name(), "Running");
}

#[test]
fn resource_spec_fields() {
    let r = ResourceSpec { cpu: "250m".to_string(), memory: "512Mi".to_string() };
    assert_eq!(r.cpu, "250m");
    assert_eq!(r.memory, "512Mi");
}
