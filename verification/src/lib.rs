use vstd::prelude::*;

pub mod chat;
pub mod config;
pub mod generation;
pub mod kvcache;
pub mod names;
pub mod operators;
pub mod output;
pub mod params;
pub mod sampling;
pub mod tensor;

verus! {

/// The error taxonomy of the engine: configuration and checkpoint problems
/// are fatal at load time, the rest end only the current generation call.
#[derive(Clone, Copy, PartialEq, Eq, Structural, Debug)]
pub enum EngineError {
    /// A configuration field is missing or malformed.
    ConfigError,
    /// A named tensor is missing from the checkpoint.
    CheckpointMissingTensor,
    /// A checkpoint tensor's declared shape is not the expected one.
    CheckpointShapeMismatch,
    /// A checkpoint payload length is not four bytes per declared element.
    CheckpointBadPayload,
    /// A kernel or constructor was invoked with incompatible shapes.
    ShapeError,
    /// A cache append would pass the maximum sequence length.
    ContextOverflowError,
    /// Degenerate logits or an invalid top-k request.
    SamplingError,
}

} // verus!
