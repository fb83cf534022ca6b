//! Data transfer objects of the read-only projection API, and the verified
//! projections that fill them from a declared node.
//!
//! The HTTP serving itself lives outside the library; the shapes of the
//! responses and the logic that projects a node into them are here.

use vstd::prelude::*;
use crate::types::{
    Condition, ConditionView, NodeType, Phase, StellarNetwork, StellarNetworkView, StellarNode,
    StellarNodeStatus, StellarNodeStatusView, StellarNodeView, StringView, spec_phase_name,
};

verus! {

// ============================================================================
// Cloning helpers with exact contracts
// ============================================================================

/// Copy a network value, preserving it.
pub fn clone_network(n: &StellarNetwork) -> (r: StellarNetwork)
    ensures
        r@ == n@,
{
    match n {
        StellarNetwork::Mainnet => StellarNetwork::Mainnet,
        StellarNetwork::Testnet => StellarNetwork::Testnet,
        StellarNetwork::Futurenet => StellarNetwork::Futurenet,
        StellarNetwork::Custom(p) => StellarNetwork::Custom(p.clone()),
    }
}

/// Copy a condition, preserving every field.
pub fn clone_condition(c: &Condition) -> (r: Condition)
    ensures
        r@ == c@,
{
    Condition {
        type_: c.type_.clone(),
        status: c.status.clone(),
        last_transition_time: c.last_transition_time.clone(),
        reason: c.reason.clone(),
        message: c.message.clone(),
    }
}

/// Copy a status snapshot, preserving every field.
pub fn clone_status(s: &StellarNodeStatus) -> (r: StellarNodeStatus)
    ensures
        r@ == s@,
{
    let mut conditions: Vec<Condition> = Vec::new();
    let mut i: usize = 0;
    while i < s.conditions.len()
        invariant
            i <= s.conditions.len(),
            conditions.deep_view() =~= s.conditions.deep_view().take(i as int),
        decreases s.conditions.len() - i,
    {
        let ghost prev = conditions.deep_view();
        let c = clone_condition(&s.conditions[i]);
        conditions.push(c);
        proof {
            assert(conditions.deep_view() =~= prev.push(s.conditions.deep_view()[i as int]));
            assert(s.conditions.deep_view().take(i as int + 1) =~= s.conditions.deep_view().take(
                i as int,
            ).push(s.conditions.deep_view()[i as int]));
        }
        i = i + 1;
    }
    let r = StellarNodeStatus {
        phase: s.phase,
        message: match &s.message {
            Some(m) => Some(m.clone()),
            None => None,
        },
        observed_generation: s.observed_generation,
        replicas: s.replicas,
        ready_replicas: s.ready_replicas,
        conditions,
    };
    proof {
        assert(r@ =~~= s@);
    }
    r
}

// ============================================================================
// Response shapes
// ============================================================================

/// Summary of one node for list views.
#[derive(Clone, Debug, PartialEq, Eq)]
pub struct NodeSummary {
    pub name: String,
    pub namespace: String,
    pub node_type: NodeType,
    pub network: StellarNetwork,
    pub phase: String,
    pub replicas: i32,
    pub ready_replicas: i32,
}

/// Spec-level view of a node summary.
#[verifier::ext_equal]
pub struct NodeSummaryView {
    pub name: StringView,
    pub namespace: StringView,
    pub node_type: NodeType,
    pub network: StellarNetworkView,
    pub phase: StringView,
    pub replicas: i32,
    pub ready_replicas: i32,
}

impl View for NodeSummary {
    type V = NodeSummaryView;

    open spec fn view(&self) -> NodeSummaryView {
        NodeSummaryView {
            name: self.name@,
            namespace: self.namespace@,
            node_type: self.node_type,
            network: self.network@,
            phase: self.phase@,
            replicas: self.replicas,
            ready_replicas: self.ready_replicas,
        }
    }
}

impl DeepView for NodeSummary {
    type V = NodeSummaryView;

    open spec fn deep_view(&self) -> NodeSummaryView {
        self.view()
    }
}

/// Response for listing nodes.
#[derive(Clone, Debug, PartialEq, Eq)]
pub struct NodeListResponse {
    pub items: Vec<NodeSummary>,
    pub total: usize,
}

/// Response for a single node.
#[derive(Clone, Debug, PartialEq, Eq)]
pub struct NodeDetailResponse {
    pub name: String,
    pub namespace: String,
    pub node_type: NodeType,
    pub network: StellarNetwork,
    pub version: String,
    pub status: StellarNodeStatus,
    pub created_at: Option<String>,
}

/// Request to create a node (simplified).
#[derive(Clone, Debug, PartialEq, Eq)]
pub struct CreateNodeRequest {
    pub name: String,
    pub namespace: String,
    pub node_type: NodeType,
    pub network: StellarNetwork,
    pub version: String,
}

/// Health check response.
#[derive(Clone, Debug, PartialEq, Eq)]
pub struct HealthResponse {
    pub status: String,
    pub version: String,
}

/// Error response.
#[derive(Clone, Debug, PartialEq, Eq)]
pub struct ErrorResponse {
    pub error: String,
    pub message: String,
}

impl ErrorResponse {
    /// Build an error response from its two parts.
    pub fn new(error: &str, message: &str) -> (r: Self)
        ensures
            r@.error == error@,
            r@.message == message@,
    {
        ErrorResponse { error: String::from_str(error), message: String::from_str(message) }
    }
}

/// Spec-level view of an error response.
#[verifier::ext_equal]
pub struct ErrorResponseView {
    pub error: StringView,
    pub message: StringView,
}

impl View for ErrorResponse {
    type V = ErrorResponseView;

    open spec fn view(&self) -> ErrorResponseView {
        ErrorResponseView { error: self.error@, message: self.message@ }
    }
}

// ============================================================================
// Projections
// ============================================================================

/// The phase text a node reports: its status phase, or "Unknown" before any
/// status was written.
pub open spec fn spec_phase_text(node: StellarNodeView) -> StringView {
    match node.status {
        Some(st) => spec_phase_name(st.phase),
        None => "Unknown"@,
    }
}

/// The summary projected from a node for list views.
pub open spec fn spec_node_summary(node: StellarNodeView) -> NodeSummaryView {
    NodeSummaryView {
        name: node.name,
        namespace: node.namespace,
        node_type: node.spec.node_type,
        network: node.spec.network,
        phase: spec_phase_text(node),
        replicas: match node.status {
            Some(st) => st.replicas,
            None => 0i32,
        },
        ready_replicas: match node.status {
            Some(st) => st.ready_replicas,
            None => 0i32,
        },
    }
}

/// Project a node into its list-view summary.
pub fn node_summary(node: &StellarNode) -> (r: NodeSummary)
    ensures
        r@ == spec_node_summary(node@),
{
    let phase: String = match &node.status {
        Some(st) => st.phase.name(),
        None => String::from_str("Unknown"),
    };
    let (replicas, ready_replicas): (i32, i32) = match &node.status {
        Some(st) => (st.replicas, st.ready_replicas),
        None => (0, 0),
    };
    let r = NodeSummary {
        name: node.name.clone(),
        namespace: node.namespace.clone(),
        node_type: node.spec.node_type,
        network: clone_network(&node.spec.network),
        phase,
        replicas,
        ready_replicas,
    };
    proof {
        assert(r@ =~= spec_node_summary(node@));
    }
    r
}

/// The status a detail response reports for a node that has none yet: an
/// Unknown-free empty snapshot in phase Creating with zeroed counts.
pub open spec fn spec_detail_status(node: StellarNodeView) -> StellarNodeStatusView {
    match node.status {
        Some(st) => st,
        None => StellarNodeStatusView {
            phase: Phase::Creating,
            message: None,
            observed_generation: None,
            replicas: 0i32,
            ready_replicas: 0i32,
            conditions: Seq::empty(),
        },
    }
}

/// Project a node into its detail response.  The platform-assigned creation
/// timestamp is passed through as supplied by the caller.
pub fn node_detail(node: &StellarNode, created_at: Option<String>) -> (r: NodeDetailResponse)
    ensures
        r.name@ == node@.name,
        r.namespace@ == node@.namespace,
        r.node_type == node@.spec.node_type,
        r.network@ == node@.spec.network,
        r.version@ == node@.spec.version,
        r.status@ == spec_detail_status(node@),
        r.created_at.deep_view() == created_at.deep_view(),
{
    let status: StellarNodeStatus = match &node.status {
        Some(st) => clone_status(st),
        None => StellarNodeStatus {
            phase: Phase::Creating,
            message: None,
            observed_generation: None,
            replicas: 0,
            ready_replicas: 0,
            conditions: Vec::new(),
        },
    };
    proof {
        assert(status@ =~~= spec_detail_status(node@));
    }
    NodeDetailResponse {
        name: node.name.clone(),
        namespace: node.namespace.clone(),
        node_type: node.spec.node_type,
        network: clone_network(&node.spec.network),
        version: node.spec.version.clone(),
        status,
        created_at,
    }
}

} // verus!
