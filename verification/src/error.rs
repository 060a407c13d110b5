//! Errors of the engine core.
use vstd::prelude::*;

verus! {

/// Errors reported by the engine core.
#[derive(Debug, Clone, Copy, PartialEq, Eq, Structural)]
pub enum EngineError {
    AssetNotFound,
    InvalidComponent,
    SerializationError,
}

impl EngineError {
    /// The text that describes the error.
    pub fn message(&self) -> (r: &'static str)
        ensures
            r@ == (match self {
                EngineError::AssetNotFound => "Asset not found"@,
                EngineError::InvalidComponent => "Invalid component"@,
                EngineError::SerializationError => "Serialization error"@,
            }),
    {
        match self {
            EngineError::AssetNotFound => "Asset not found",
            EngineError::InvalidComponent => "Invalid component",
            EngineError::SerializationError => "Serialization error",
        }
    }
}

} // verus!
