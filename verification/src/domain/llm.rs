//! Language models: what a call is made with and how it fails.

use vstd::prelude::*;

verus! {

/// A sampling temperature, as the bits of its single-precision number.
#[derive(Clone, Copy, Debug, PartialEq, Eq, Hash, Structural)]
pub struct Temperature {
    pub bits: u32,
}

impl View for Temperature {
    type V = u32;

    open spec fn view(&self) -> u32 {
        self.bits
    }
}

/// Options of a generation call that an alias may override.
#[derive(Clone, Copy, Debug, PartialEq, Eq, Structural)]
pub struct GenerationOptions {
    pub max_tokens: Option<u32>,
    pub temperature: Option<Temperature>,
}

/// Why a call to a model failed.
#[derive(Debug, PartialEq, Eq)]
pub enum LLMError {
    Network(String),
    Authentication(String),
    RateLimit,
    ModelNotFound(String),
    Provider(String),
    InvalidInput(String),
    ServiceUnavailable(String),
}

} // verus!
