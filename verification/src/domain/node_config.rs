//! The parts of a node's configuration that choose language models.

use vstd::prelude::*;

verus! {

/// The price of a thousand tokens, as a rank that orders as the price does. A
/// price that is not a number has no rank and is never the lower one.
#[derive(Clone, Copy, Debug, PartialEq, Eq, Hash, Structural)]
pub struct TokenCost {
    pub rank: Option<i64>,
}

impl TokenCost {
    /// Whether `self` is lower than `other`.
    pub open spec fn lower(self, other: TokenCost) -> bool {
        self.rank is Some && other.rank is Some && self.rank->0 < other.rank->0
    }

    /// Whether `self` is lower than `other`.
    pub fn is_lower(&self, other: &TokenCost) -> (r: bool)
        ensures
            r == self.lower(*other),
    {
        match (self.rank, other.rank) {
            (Some(a), Some(b)) => a < b,
            _ => false,
        }
    }
}

/// A model that a provider offers under an alias.
#[derive(Debug)]
pub struct ModelConfig {
    pub alias: String,
    pub model: String,
    pub capabilities: Vec<String>,
    pub context_window: u32,
    pub cost_per_1k_tokens: TokenCost,
    pub max_output_tokens: Option<u32>,
    pub temperature: Option<crate::domain::llm::Temperature>,
}

/// A provider of models.
#[derive(Debug)]
pub struct LLMProviderConfig {
    pub name: String,
    pub provider_type: String,
    pub endpoint: String,
    pub api_key: Option<String>,
    pub enabled: bool,
    /// Whether the provider runs on the node's own side.
    pub local: bool,
    pub models: Vec<ModelConfig>,
}

/// How one of several models under the same alias is chosen.
#[derive(Clone, Copy, Debug, PartialEq, Eq, Hash, Structural)]
pub enum LLMSelectionStrategy {
    PreferLocal,
    PreferCloud,
    CostOptimized,
    LatencyOptimized,
}

/// How models are chosen and calls repeated.
#[derive(Debug)]
pub struct LLMSelection {
    pub strategy: LLMSelectionStrategy,
    pub fallback_provider: Option<String>,
    pub max_retries: u32,
    pub retry_delay_ms: u64,
    pub llm_overall_timeout_secs: u64,
}

/// The part of a node's configuration that this library reads.
#[derive(Debug)]
pub struct NodeConfigSpec {
    pub llm_providers: Vec<LLMProviderConfig>,
    pub llm_selection: LLMSelection,
}

/// A node's configuration.
#[derive(Debug)]
pub struct NodeConfigManifest {
    pub spec: NodeConfigSpec,
}

/// One price is lower than another exactly where both are numbers and its rank
/// is smaller: never than itself, never both ways, and a third price that is
/// higher than the higher one is higher than both.
pub proof fn prices_order_by_rank(a: TokenCost, b: TokenCost, c: TokenCost)
    ensures
        a.rank is None ==> !a.lower(b) && !b.lower(a),
        a.rank is Some && b.rank is Some ==> (a.lower(b) <==> a.rank->0 < b.rank->0),
        !a.lower(a),
        a.lower(b) ==> !b.lower(a),
        a.lower(b) && b.lower(c) ==> a.lower(c),
{
}

} // verus!
