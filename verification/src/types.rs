//! Declared-state types for a managed Stellar node.
//!
//! These model the custom resource a user declares: the node kind, target
//! network, storage, compute, kind-specific configuration, and the status the
//! controller reports back.  Each executable type has a spec-level view over
//! which the contracts of the builders and the reconciler are stated.

use vstd::prelude::*;

verus! {

/// Spec-level representation of a string: its character sequence.
pub type StringView = Seq<char>;

// ============================================================================
// Node kind
// ============================================================================

/// Supported Stellar node kinds.
#[derive(Clone, Copy, Debug, PartialEq, Eq, Structural)]
pub enum NodeType {
    /// Full validator running Stellar Core; participates in consensus.
    Validator,
    /// Horizon API server for REST access to the Stellar network.
    Horizon,
    /// Soroban RPC node for smart-contract simulation and submission.
    SorobanRpc,
}

/// The exact display name of a node kind.
pub open spec fn spec_node_type_name(t: NodeType) -> StringView {
    match t {
        NodeType::Validator => "Validator"@,
        NodeType::Horizon => "Horizon"@,
        NodeType::SorobanRpc => "SorobanRpc"@,
    }
}

/// The display name of a node kind in lower case, used as the component label.
pub open spec fn spec_node_type_component(t: NodeType) -> StringView {
    match t {
        NodeType::Validator => "validator"@,
        NodeType::Horizon => "horizon"@,
        NodeType::SorobanRpc => "sorobanrpc"@,
    }
}

impl NodeType {
    /// Render the node kind as its display name.
    pub fn name(&self) -> (r: String)
        ensures
            r@ == spec_node_type_name(*self),
    {
        match self {
            NodeType::Validator => String::from_str("Validator"),
            NodeType::Horizon => String::from_str("Horizon"),
            NodeType::SorobanRpc => String::from_str("SorobanRpc"),
        }
    }

    /// Render the node kind in lower case, as used for the component label.
    pub fn component(&self) -> (r: String)
        ensures
            r@ == spec_node_type_component(*self),
    {
        match self {
            NodeType::Validator => String::from_str("validator"),
            NodeType::Horizon => String::from_str("horizon"),
            NodeType::SorobanRpc => String::from_str("sorobanrpc"),
        }
    }
}

// ============================================================================
// Target network
// ============================================================================

/// Target Stellar network.
#[derive(Clone, Debug, PartialEq, Eq)]
pub enum StellarNetwork {
    /// Stellar public mainnet.
    Mainnet,
    /// Stellar testnet for testing.
    Testnet,
    /// Futurenet for bleeding-edge features.
    Futurenet,
    /// Custom network with its passphrase.
    Custom(String),
}

/// Spec-level view of a target network.
#[verifier::ext_equal]
pub enum StellarNetworkView {
    Mainnet,
    Testnet,
    Futurenet,
    Custom(StringView),
}

impl View for StellarNetwork {
    type V = StellarNetworkView;

    open spec fn view(&self) -> StellarNetworkView {
        match self {
            StellarNetwork::Mainnet => StellarNetworkView::Mainnet,
            StellarNetwork::Testnet => StellarNetworkView::Testnet,
            StellarNetwork::Futurenet => StellarNetworkView::Futurenet,
            StellarNetwork::Custom(p) => StellarNetworkView::Custom(p@),
        }
    }
}

/// The network passphrase: one of the three fixed well-known passphrases, or
/// the literal custom passphrase.
pub open spec fn spec_passphrase(n: StellarNetworkView) -> StringView {
    match n {
        StellarNetworkView::Mainnet => "Public Global Stellar Network ; September 2015"@,
        StellarNetworkView::Testnet => "Test SDF Network ; September 2015"@,
        StellarNetworkView::Futurenet => "Test SDF Future Network ; October 2022"@,
        StellarNetworkView::Custom(p) => p,
    }
}

impl StellarNetwork {
    /// Get the network passphrase for this network.
    pub fn passphrase(&self) -> (r: &str)
        ensures
            r@ == spec_passphrase(self@),
    {
        match self {
            StellarNetwork::Mainnet => "Public Global Stellar Network ; September 2015",
            StellarNetwork::Testnet => "Test SDF Network ; September 2015",
            StellarNetwork::Futurenet => "Test SDF Future Network ; October 2022",
            StellarNetwork::Custom(passphrase) => passphrase.as_str(),
        }
    }
}

// ============================================================================
// Key/value pairs
// ============================================================================

/// One key/value entry of a label set, an annotation set or a configuration
/// bundle.
#[derive(Clone, Debug, PartialEq, Eq)]
pub struct KeyValue {
    pub key: String,
    pub value: String,
}

/// Spec-level view of a key/value entry.
#[verifier::ext_equal]
pub struct KeyValueView {
    pub key: StringView,
    pub value: StringView,
}

impl View for KeyValue {
    type V = KeyValueView;

    open spec fn view(&self) -> KeyValueView {
        KeyValueView { key: self.key@, value: self.value@ }
    }
}

impl DeepView for KeyValue {
    type V = KeyValueView;

    open spec fn deep_view(&self) -> KeyValueView {
        self.view()
    }
}

impl KeyValue {
    /// Build an entry from its two parts.
    pub fn new(key: &str, value: &str) -> (r: KeyValue)
        ensures
            r@.key == key@,
            r@.value == value@,
    {
        KeyValue { key: String::from_str(key), value: String::from_str(value) }
    }
}

/// Copy a list of key/value entries, preserving its contents.
pub fn clone_key_values(v: &Vec<KeyValue>) -> (r: Vec<KeyValue>)
    ensures
        r.deep_view() == v.deep_view(),
{
    let mut r: Vec<KeyValue> = Vec::new();
    let mut i: usize = 0;
    while i < v.len()
        invariant
            i <= v.len(),
            r.deep_view() =~= v.deep_view().take(i as int),
        decreases v.len() - i,
    {
        let ghost prev = r.deep_view();
        let kv = KeyValue { key: v[i].key.clone(), value: v[i].value.clone() };
        proof {
            assert(kv.deep_view() == v@[i as int].deep_view());
        }
        r.push(kv);
        proof {
            assert(r.deep_view() =~= prev.push(v.deep_view()[i as int]));
            assert(v.deep_view().take(i as int + 1) =~= v.deep_view().take(i as int).push(
                v.deep_view()[i as int],
            ));
        }
        i = i + 1;
    }
    proof {
        assert(r.deep_view() =~= v.deep_view());
    }
    r
}

// ============================================================================
// Compute resources
// ============================================================================

/// Resource quantities for CPU and memory.
#[derive(Clone, Debug, PartialEq, Eq)]
pub struct ResourceSpec {
    /// CPU cores (e.g., "500m", "2").
    pub cpu: String,
    /// Memory (e.g., "1Gi", "4Gi").
    pub memory: String,
}

/// Spec-level view of resource quantities.
#[verifier::ext_equal]
pub struct ResourceSpecView {
    pub cpu: StringView,
    pub memory: StringView,
}

impl View for ResourceSpec {
    type V = ResourceSpecView;

    open spec fn view(&self) -> ResourceSpecView {
        ResourceSpecView { cpu: self.cpu@, memory: self.memory@ }
    }
}

/// Requested and maximum compute resources.
#[derive(Clone, Debug, PartialEq, Eq)]
pub struct ResourceRequirements {
    /// Minimum resources requested.
    pub requests: ResourceSpec,
    /// Maximum resources allowed.
    pub limits: ResourceSpec,
}

/// Spec-level view of compute requirements.
#[verifier::ext_equal]
pub struct ResourceRequirementsView {
    pub requests: ResourceSpecView,
    pub limits: ResourceSpecView,
}

impl View for ResourceRequirements {
    type V = ResourceRequirementsView;

    open spec fn view(&self) -> ResourceRequirementsView {
        ResourceRequirementsView { requests: self.requests@, limits: self.limits@ }
    }
}

impl Default for ResourceRequirements {
    /// Default resources: half a core and 1Gi requested, two cores and 4Gi as
    /// the limit.
    fn default() -> (r: Self)
        ensures
            r@.requests.cpu == "500m"@,
            r@.requests.memory == "1Gi"@,
            r@.limits.cpu == "2"@,
            r@.limits.memory == "4Gi"@,
    {
        ResourceRequirements {
            requests: ResourceSpec {
                cpu: String::from_str("500m"),
                memory: String::from_str("1Gi"),
            },
            limits: ResourceSpec {
                cpu: String::from_str("2"),
                memory: String::from_str("4Gi"),
            },
        }
    }
}

// ============================================================================
// Storage
// ============================================================================

/// Retention policy for the storage claim when the node is deleted.
#[derive(Clone, Copy, Debug, PartialEq, Eq, Structural)]
pub enum RetentionPolicy {
    /// Delete the storage claim when the node is deleted.
    Delete,
    /// Retain the storage claim for manual cleanup or data recovery.
    Retain,
}

impl Default for RetentionPolicy {
    /// The default policy deletes the claim with the node.
    fn default() -> (r: Self)
        ensures
            r == RetentionPolicy::Delete,
    {
        RetentionPolicy::Delete
    }
}

/// Storage configuration for persistent data.
#[derive(Clone, Debug, PartialEq, Eq)]
pub struct StorageConfig {
    /// Storage class name (e.g., "standard", "ssd", "premium-rwo").
    pub storage_class: String,
    /// Size of the storage claim (e.g., "100Gi").
    pub size: String,
    /// Retention policy when the node is deleted.
    pub retention_policy: RetentionPolicy,
    /// Optional annotations to apply to the storage claim.
    pub annotations: Option<Vec<KeyValue>>,
}

/// Spec-level view of the storage configuration.
#[verifier::ext_equal]
pub struct StorageConfigView {
    pub storage_class: StringView,
    pub size: StringView,
    pub retention_policy: RetentionPolicy,
    pub annotations: Option<Seq<KeyValueView>>,
}

impl View for StorageConfig {
    type V = StorageConfigView;

    open spec fn view(&self) -> StorageConfigView {
        StorageConfigView {
            storage_class: self.storage_class@,
            size: self.size@,
            retention_policy: self.retention_policy,
            annotations: self.annotations.deep_view(),
        }
    }
}

impl Default for StorageConfig {
    /// Default storage: 100Gi on the "standard" class, deleted with the node.
    fn default() -> (r: Self)
        ensures
            r@.storage_class == "standard"@,
            r@.size == "100Gi"@,
            r@.retention_policy == RetentionPolicy::Delete,
            r@.annotations is None,
    {
        StorageConfig {
            storage_class: String::from_str("standard"),
            size: String::from_str("100Gi"),
            retention_policy: RetentionPolicy::Delete,
            annotations: None,
        }
    }
}

// ============================================================================
// Kind-specific configuration
// ============================================================================

/// Validator-specific configuration.
#[derive(Clone, Debug, PartialEq, Eq)]
pub struct ValidatorConfig {
    /// Secret name containing the validator seed.
    pub seed_secret_ref: String,
    /// Quorum set configuration as a TOML string.
    pub quorum_set: Option<String>,
    /// Enable history archive for this validator.
    pub enable_history_archive: bool,
    /// History archive URLs to fetch from.
    pub history_archive_urls: Vec<String>,
    /// Node is in catchup mode (syncing historical data).
    pub catchup_complete: bool,
}

/// Spec-level view of the validator configuration.
#[verifier::ext_equal]
pub struct ValidatorConfigView {
    pub seed_secret_ref: StringView,
    pub quorum_set: Option<StringView>,
    pub enable_history_archive: bool,
    pub history_archive_urls: Seq<StringView>,
    pub catchup_complete: bool,
}

impl View for ValidatorConfig {
    type V = ValidatorConfigView;

    open spec fn view(&self) -> ValidatorConfigView {
        ValidatorConfigView {
            seed_secret_ref: self.seed_secret_ref@,
            quorum_set: self.quorum_set.deep_view(),
            enable_history_archive: self.enable_history_archive,
            history_archive_urls: self.history_archive_urls.deep_view(),
            catchup_complete: self.catchup_complete,
        }
    }
}

impl DeepView for ValidatorConfig {
    type V = ValidatorConfigView;

    open spec fn deep_view(&self) -> ValidatorConfigView {
        self.view()
    }
}

/// Horizon API server configuration.
#[derive(Clone, Debug, PartialEq, Eq)]
pub struct HorizonConfig {
    /// Secret reference for database credentials.
    pub database_secret_ref: String,
    /// Enable real-time ingestion from Stellar Core.
    pub enable_ingest: bool,
    /// Stellar Core URL to ingest from.
    pub stellar_core_url: String,
    /// Number of parallel ingestion workers.
    pub ingest_workers: u32,
    /// Enable experimental features.
    pub enable_experimental_ingestion: bool,
}

/// Spec-level view of the Horizon configuration.
#[verifier::ext_equal]
pub struct HorizonConfigView {
    pub database_secret_ref: StringView,
    pub enable_ingest: bool,
    pub stellar_core_url: StringView,
    pub ingest_workers: u32,
    pub enable_experimental_ingestion: bool,
}

impl View for HorizonConfig {
    type V = HorizonConfigView;

    open spec fn view(&self) -> HorizonConfigView {
        HorizonConfigView {
            database_secret_ref: self.database_secret_ref@,
            enable_ingest: self.enable_ingest,
            stellar_core_url: self.stellar_core_url@,
            ingest_workers: self.ingest_workers,
            enable_experimental_ingestion: self.enable_experimental_ingestion,
        }
    }
}

impl DeepView for HorizonConfig {
    type V = HorizonConfigView;

    open spec fn deep_view(&self) -> HorizonConfigView {
        self.view()
    }
}

/// Soroban RPC server configuration.
#[derive(Clone, Debug, PartialEq, Eq)]
pub struct SorobanConfig {
    /// Stellar Core endpoint URL.
    pub stellar_core_url: String,
    /// Captive Core configuration (TOML format).
    pub captive_core_config: Option<String>,
    /// Enable transaction simulation preflight.
    pub enable_preflight: bool,
    /// Maximum number of events to return per request.
    pub max_events_per_request: u32,
}

/// Spec-level view of the Soroban RPC configuration.
#[verifier::ext_equal]
pub struct SorobanConfigView {
    pub stellar_core_url: StringView,
    pub captive_core_config: Option<StringView>,
    pub enable_preflight: bool,
    pub max_events_per_request: u32,
}

impl View for SorobanConfig {
    type V = SorobanConfigView;

    open spec fn view(&self) -> SorobanConfigView {
        SorobanConfigView {
            stellar_core_url: self.stellar_core_url@,
            captive_core_config: self.captive_core_config.deep_view(),
            enable_preflight: self.enable_preflight,
            max_events_per_request: self.max_events_per_request,
        }
    }
}

impl DeepView for SorobanConfig {
    type V = SorobanConfigView;

    open spec fn deep_view(&self) -> SorobanConfigView {
        self.view()
    }
}

/// Default for enabling a feature flag: enabled.
pub fn default_true() -> (r: bool)
    ensures
        r == true,
{
    true
}

/// Default number of parallel ingestion workers.
pub fn default_ingest_workers() -> (r: u32)
    ensures
        r == 1u32,
{
    1
}

/// Default maximum number of events returned per request.
pub fn default_max_events() -> (r: u32)
    ensures
        r == 10000u32,
{
    10000
}

// ============================================================================
// External database and autoscaling
// ============================================================================

/// Reference to one key of a secret.
#[derive(Clone, Debug, PartialEq, Eq)]
pub struct SecretKeyRef {
    /// Name of the secret.
    pub name: String,
    /// Key within the secret.
    pub key: String,
}

/// Spec-level view of a secret key reference.
#[verifier::ext_equal]
pub struct SecretKeyRefView {
    pub name: StringView,
    pub key: StringView,
}

impl View for SecretKeyRef {
    type V = SecretKeyRefView;

    open spec fn view(&self) -> SecretKeyRefView {
        SecretKeyRefView { name: self.name@, key: self.key@ }
    }
}

/// External database configuration: credentials are injected by reference to
/// a secret, never copied inline.
#[derive(Clone, Debug, PartialEq, Eq)]
pub struct DatabaseConfig {
    /// The secret key holding the database credential.
    pub secret_key_ref: SecretKeyRef,
}

/// Spec-level view of the database configuration.
#[verifier::ext_equal]
pub struct DatabaseConfigView {
    pub secret_key_ref: SecretKeyRefView,
}

impl View for DatabaseConfig {
    type V = DatabaseConfigView;

    open spec fn view(&self) -> DatabaseConfigView {
        DatabaseConfigView { secret_key_ref: self.secret_key_ref@ }
    }
}

impl DeepView for DatabaseConfig {
    type V = DatabaseConfigView;

    open spec fn deep_view(&self) -> DatabaseConfigView {
        self.view()
    }
}

/// Autoscaling configuration for stateless node kinds.
#[derive(Clone, Debug, PartialEq, Eq)]
pub struct AutoscalingConfig {
    /// Lower bound on replicas.
    pub min_replicas: i32,
    /// Upper bound on replicas.
    pub max_replicas: i32,
    /// Custom metric names; accepted but not yet wired to a policy.
    pub custom_metrics: Vec<String>,
}

/// Spec-level view of the autoscaling configuration.
#[verifier::ext_equal]
pub struct AutoscalingConfigView {
    pub min_replicas: i32,
    pub max_replicas: i32,
    pub custom_metrics: Seq<StringView>,
}

impl View for AutoscalingConfig {
    type V = AutoscalingConfigView;

    open spec fn view(&self) -> AutoscalingConfigView {
        AutoscalingConfigView {
            min_replicas: self.min_replicas,
            max_replicas: self.max_replicas,
            custom_metrics: self.custom_metrics.deep_view(),
        }
    }
}

impl DeepView for AutoscalingConfig {
    type V = AutoscalingConfigView;

    open spec fn deep_view(&self) -> AutoscalingConfigView {
        self.view()
    }
}

// ============================================================================
// Node spec and validation
// ============================================================================

/// The desired state a user declares for one managed Stellar node.
#[derive(Clone, Debug, PartialEq, Eq)]
pub struct StellarNodeSpec {
    /// Which kind of node to run.
    pub node_type: NodeType,
    /// Which Stellar network the node joins.
    pub network: StellarNetwork,
    /// Software version to run.
    pub version: String,
    /// Declared replica count (stateless kinds only; validators are pinned
    /// to a single replica).
    pub replicas: i32,
    /// When set, workload replicas are driven to zero while every other
    /// child resource is still provisioned.
    pub suspended: bool,
    /// Persistent storage configuration.
    pub storage: StorageConfig,
    /// Compute requests and limits.
    pub resources: ResourceRequirements,
    /// Validator-specific configuration.
    pub validator_config: Option<ValidatorConfig>,
    /// Horizon-specific configuration.
    pub horizon_config: Option<HorizonConfig>,
    /// Soroban-RPC-specific configuration.
    pub soroban_config: Option<SorobanConfig>,
    /// Optional external database credential reference.
    pub database: Option<DatabaseConfig>,
    /// Optional autoscaling bounds for stateless kinds.
    pub autoscaling: Option<AutoscalingConfig>,
}

/// Spec-level view of a node spec.
#[verifier::ext_equal]
pub struct StellarNodeSpecView {
    pub node_type: NodeType,
    pub network: StellarNetworkView,
    pub version: StringView,
    pub replicas: i32,
    pub suspended: bool,
    pub storage: StorageConfigView,
    pub resources: ResourceRequirementsView,
    pub validator_config: Option<ValidatorConfigView>,
    pub horizon_config: Option<HorizonConfigView>,
    pub soroban_config: Option<SorobanConfigView>,
    pub database: Option<DatabaseConfigView>,
    pub autoscaling: Option<AutoscalingConfigView>,
}

impl View for StellarNodeSpec {
    type V = StellarNodeSpecView;

    open spec fn view(&self) -> StellarNodeSpecView {
        StellarNodeSpecView {
            node_type: self.node_type,
            network: self.network@,
            version: self.version@,
            replicas: self.replicas,
            suspended: self.suspended,
            storage: self.storage@,
            resources: self.resources@,
            validator_config: self.validator_config.deep_view(),
            horizon_config: self.horizon_config.deep_view(),
            soroban_config: self.soroban_config.deep_view(),
            database: self.database.deep_view(),
            autoscaling: self.autoscaling.deep_view(),
        }
    }
}

/// Ways a declared spec can be semantically invalid.
#[derive(Clone, Copy, Debug, PartialEq, Eq, Structural)]
pub enum ValidationFault {
    /// The declared replica count is negative.
    NegativeReplicas,
    /// The storage size is empty.
    BlankStorageSize,
    /// Autoscaling bounds are not `1 <= min <= max`.
    AutoscalingBounds,
}

/// The exact human-readable message for each validation fault.
pub open spec fn spec_fault_message(f: ValidationFault) -> StringView {
    match f {
        ValidationFault::NegativeReplicas => "spec.replicas must not be negative"@,
        ValidationFault::BlankStorageSize => "spec.storage.size must not be empty"@,
        ValidationFault::AutoscalingBounds => "spec.autoscaling requires 1 <= minReplicas <= maxReplicas"@,
    }
}

impl ValidationFault {
    /// The human-readable message for this fault; never empty.
    pub fn message(&self) -> (r: String)
        ensures
            r@ == spec_fault_message(*self),
            r@.len() > 0,
    {
        proof {
            reveal_strlit("spec.replicas must not be negative");
            reveal_strlit("spec.storage.size must not be empty");
            reveal_strlit("spec.autoscaling requires 1 <= minReplicas <= maxReplicas");
        }
        match self {
            ValidationFault::NegativeReplicas => {
                String::from_str("spec.replicas must not be negative")
            },
            ValidationFault::BlankStorageSize => {
                String::from_str("spec.storage.size must not be empty")
            },
            ValidationFault::AutoscalingBounds => {
                String::from_str("spec.autoscaling requires 1 <= minReplicas <= maxReplicas")
            },
        }
    }
}

/// The first fault a spec exhibits, in the order the checks run, or `None`
/// for a valid spec.
pub open spec fn spec_first_fault(s: StellarNodeSpecView) -> Option<ValidationFault> {
    if s.replicas < 0 {
        Some(ValidationFault::NegativeReplicas)
    } else if s.storage.size.len() == 0 {
        Some(ValidationFault::BlankStorageSize)
    } else if s.autoscaling matches Some(a) && !(1 <= a.min_replicas && a.min_replicas
        <= a.max_replicas) {
        Some(ValidationFault::AutoscalingBounds)
    } else {
        None
    }
}

/// A spec is valid when it exhibits no fault.
pub open spec fn spec_valid(s: StellarNodeSpecView) -> bool {
    spec_first_fault(s) is None
}

/// The container image run for a node: a kind-specific repository tagged with
/// the declared version.
pub open spec fn spec_container_image(t: NodeType, version: StringView) -> StringView {
    match t {
        NodeType::Validator => "stellar/stellar-core:"@ + version,
        NodeType::Horizon => "stellar/stellar-horizon:"@ + version,
        NodeType::SorobanRpc => "stellar/soroban-rpc:"@ + version,
    }
}

impl StellarNodeSpec {
    /// Check the spec for semantic faults, reporting the first one found.
    pub fn validate(&self) -> (r: Result<(), ValidationFault>)
        ensures
            r == (match spec_first_fault(self@) {
                Option::None => Result::<(), ValidationFault>::Ok(()),
                Option::Some(f) => Result::<(), ValidationFault>::Err(f),
            }),
            r is Ok <==> spec_valid(self@),
    {
        if self.replicas < 0 {
            return Err(ValidationFault::NegativeReplicas);
        }
        if self.storage.size.as_str().is_empty() {
            return Err(ValidationFault::BlankStorageSize);
        }
        match &self.autoscaling {
            Some(a) => {
                if a.min_replicas < 1 || a.max_replicas < a.min_replicas {
                    return Err(ValidationFault::AutoscalingBounds);
                }
            },
            None => {},
        }
        Ok(())
    }

    /// The container image for this spec.
    pub fn container_image(&self) -> (r: String)
        ensures
            r@ == spec_container_image(self@.node_type, self@.version),
    {
        match self.node_type {
            NodeType::Validator => String::from_str("stellar/stellar-core:").concat(
                self.version.as_str(),
            ),
            NodeType::Horizon => String::from_str("stellar/stellar-horizon:").concat(
                self.version.as_str(),
            ),
            NodeType::SorobanRpc => String::from_str("stellar/soroban-rpc:").concat(
                self.version.as_str(),
            ),
        }
    }

    /// Whether deleting the node also deletes its storage claim.
    pub fn should_delete_pvc(&self) -> (r: bool)
        ensures
            r == (self.storage.retention_policy == RetentionPolicy::Delete),
    {
        match self.storage.retention_policy {
            RetentionPolicy::Delete => true,
            RetentionPolicy::Retain => false,
        }
    }

    /// Whether this spec calls for an autoscaler: only stateless kinds with
    /// an autoscaling block get one.
    pub fn wants_autoscaler(&self) -> (r: bool)
        ensures
            r == spec_wants_autoscaler(self@),
    {
        match self.node_type {
            NodeType::Validator => false,
            NodeType::Horizon | NodeType::SorobanRpc => self.autoscaling.is_some(),
        }
    }
}

/// An autoscaler is called for iff the kind is stateless and autoscaling is
/// configured.
pub open spec fn spec_wants_autoscaler(s: StellarNodeSpecView) -> bool {
    s.node_type != NodeType::Validator && s.autoscaling is Some
}

// ============================================================================
// Status
// ============================================================================

/// The single current lifecycle label reported in status.
#[derive(Clone, Copy, Debug, PartialEq, Eq, Structural)]
pub enum Phase {
    /// An apply cycle is in progress.
    Creating,
    /// The node is suspended; compute is scaled to zero.
    Suspended,
    /// The declared spec is invalid.
    Failed,
    /// The node's children are provisioned.
    Running,
}

/// The exact display name of a phase.
pub open spec fn spec_phase_name(p: Phase) -> StringView {
    match p {
        Phase::Creating => "Creating"@,
        Phase::Suspended => "Suspended"@,
        Phase::Failed => "Failed"@,
        Phase::Running => "Running"@,
    }
}

impl Phase {
    /// Render the phase as its display name.
    pub fn name(&self) -> (r: String)
        ensures
            r@ == spec_phase_name(*self),
    {
        match self {
            Phase::Creating => String::from_str("Creating"),
            Phase::Suspended => String::from_str("Suspended"),
            Phase::Failed => String::from_str("Failed"),
            Phase::Running => String::from_str("Running"),
        }
    }
}

/// A structured status condition, following the platform's convention.
#[derive(Clone, Debug, PartialEq, Eq)]
pub struct Condition {
    /// Type of condition (e.g., "Ready", "Progressing").
    pub type_: String,
    /// Status of the condition: "True", "False", or "Unknown".
    pub status: String,
    /// Last time the condition transitioned.
    pub last_transition_time: String,
    /// Machine-readable reason for the condition.
    pub reason: String,
    /// Human-readable message.
    pub message: String,
}

/// Spec-level view of a condition.
#[verifier::ext_equal]
pub struct ConditionView {
    pub type_: StringView,
    pub status: StringView,
    pub last_transition_time: StringView,
    pub reason: StringView,
    pub message: StringView,
}

impl View for Condition {
    type V = ConditionView;

    open spec fn view(&self) -> ConditionView {
        ConditionView {
            type_: self.type_@,
            status: self.status@,
            last_transition_time: self.last_transition_time@,
            reason: self.reason@,
            message: self.message@,
        }
    }
}

impl DeepView for Condition {
    type V = ConditionView;

    open spec fn deep_view(&self) -> ConditionView {
        self.view()
    }
}

/// Relies on `chrono::Utc::now` and `chrono::DateTime::to_rfc3339`: the
/// current wall-clock time rendered as an RFC 3339 timestamp.  The result
/// depends on the clock, so nothing is promised of it.
#[verifier::external_body]
fn now_rfc3339() -> String {
    chrono::Utc::now().to_rfc3339()
}

impl Condition {
    /// Create a new Ready condition, stamped with the current time.
    pub fn ready(status: bool, reason: &str, message: &str) -> (r: Self)
        ensures
            r@.type_ == "Ready"@,
            r@.status == (if status {
                "True"@
            } else {
                "False"@
            }),
            r@.reason == reason@,
            r@.message == message@,
    {
        Condition {
            type_: String::from_str("Ready"),
            status: if status {
                String::from_str("True")
            } else {
                String::from_str("False")
            },
            last_transition_time: now_rfc3339(),
            reason: String::from_str(reason),
            message: String::from_str(message),
        }
    }

    /// Create a new Progressing condition, stamped with the current time.
    pub fn progressing(reason: &str, message: &str) -> (r: Self)
        ensures
            r@.type_ == "Progressing"@,
            r@.status == "True"@,
            r@.reason == reason@,
            r@.message == message@,
    {
        Condition {
            type_: String::from_str("Progressing"),
            status: String::from_str("True"),
            last_transition_time: now_rfc3339(),
            reason: String::from_str(reason),
            message: String::from_str(message),
        }
    }
}

/// The status the controller reports for a node: a snapshot, overwritten
/// wholesale on every write, never appended to.
#[derive(Clone, Debug, PartialEq, Eq)]
pub struct StellarNodeStatus {
    /// Current lifecycle phase.
    pub phase: Phase,
    /// Free-text message describing the phase.
    pub message: Option<String>,
    /// Generation last processed by a successful apply cycle.
    pub observed_generation: Option<i64>,
    /// Declared replica count (zero while suspended).
    pub replicas: i32,
    /// Observed ready-replica count.
    pub ready_replicas: i32,
    /// Structured conditions.
    pub conditions: Vec<Condition>,
}

/// Spec-level view of a node status.
#[verifier::ext_equal]
pub struct StellarNodeStatusView {
    pub phase: Phase,
    pub message: Option<StringView>,
    pub observed_generation: Option<i64>,
    pub replicas: i32,
    pub ready_replicas: i32,
    pub conditions: Seq<ConditionView>,
}

impl View for StellarNodeStatus {
    type V = StellarNodeStatusView;

    open spec fn view(&self) -> StellarNodeStatusView {
        StellarNodeStatusView {
            phase: self.phase,
            message: self.message.deep_view(),
            observed_generation: self.observed_generation,
            replicas: self.replicas,
            ready_replicas: self.ready_replicas,
            conditions: self.conditions.deep_view(),
        }
    }
}

// ============================================================================
// The node resource
// ============================================================================

/// One declared node resource: identity, generation, spec, status and the
/// lifecycle markers the deletion protocol reads.
#[derive(Clone, Debug, PartialEq, Eq)]
pub struct StellarNode {
    /// Resource name.
    pub name: String,
    /// Resource namespace.
    pub namespace: String,
    /// Unique identifier assigned by the platform.
    pub uid: String,
    /// Generation counter, bumped on every spec edit.
    pub generation: i64,
    /// The declared spec.
    pub spec: StellarNodeSpec,
    /// The reported status, absent until first written.
    pub status: Option<StellarNodeStatus>,
    /// Whether deletion of this resource has been requested.
    pub deletion_requested: bool,
    /// Whether the finalizer token is attached, deferring hard deletion
    /// until cleanup completes.
    pub finalizer_attached: bool,
}

/// Spec-level view of a node resource.
#[verifier::ext_equal]
pub struct StellarNodeView {
    pub name: StringView,
    pub namespace: StringView,
    pub uid: StringView,
    pub generation: i64,
    pub spec: StellarNodeSpecView,
    pub status: Option<StellarNodeStatusView>,
    pub deletion_requested: bool,
    pub finalizer_attached: bool,
}

impl View for StellarNode {
    type V = StellarNodeView;

    open spec fn view(&self) -> StellarNodeView {
        StellarNodeView {
            name: self.name@,
            namespace: self.namespace@,
            uid: self.uid@,
            generation: self.generation,
            spec: self.spec@,
            status: match self.status {
                Some(ref s) => Some(s@),
                None => None,
            },
            deletion_requested: self.deletion_requested,
            finalizer_attached: self.finalizer_attached,
        }
    }
}

} // verus!
