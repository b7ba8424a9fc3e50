use vstd::prelude::*;
use crate::EngineError;

verus! {

/// The checkpoint's side-car description of the model, loaded once and
/// immutable afterwards. The two floating-point fields of the wire format —
/// normalization epsilon and rotary base frequency — are carried as raw
/// IEEE-754 bit patterns; the numeric kernels outside the core decode them.
pub struct ModelConfig {
    pub hidden_size: usize,
    pub num_hidden_layers: usize,
    pub num_attention_heads: usize,
    pub num_key_value_heads: usize,
    pub intermediate_size: usize,
    pub vocab_size: usize,
    pub max_position_embeddings: usize,
    pub rms_norm_eps_bits: u32,
    pub rope_theta_bits: u32,
    pub tie_word_embeddings: bool,
    pub bos_token_id: u32,
    pub eos_token_id: u32,
}

impl ModelConfig {
    /// A usable configuration: every extent is positive, the query heads
    /// divide the hidden size, and the key/value heads group the query
    /// heads evenly.
    pub open spec fn wf(&self) -> bool {
        &&& self.hidden_size >= 1
        &&& self.num_hidden_layers >= 1
        &&& self.num_attention_heads >= 1
        &&& self.num_key_value_heads >= 1
        &&& self.intermediate_size >= 1
        &&& self.vocab_size >= 1
        &&& self.max_position_embeddings >= 1
        &&& self.hidden_size % self.num_attention_heads == 0
        &&& self.num_attention_heads % self.num_key_value_heads == 0
    }

    /// Width of one attention head.
    pub open spec fn spec_head_dim(&self) -> int {
        self.hidden_size as int / self.num_attention_heads as int
    }

    /// Width of one attention head.
    pub fn head_dim(&self) -> (r: usize)
        requires
            self.wf(),
        ensures
            r == self.spec_head_dim(),
    {
        self.hidden_size / self.num_attention_heads
    }

    /// Checks the configuration; a malformed one cannot construct a model.
    pub fn validate(&self) -> (r: Result<(), EngineError>)
        ensures
            match r {
                Ok(()) => self.wf(),
                Err(e) => {
                    &&& e == EngineError::ConfigError
                    &&& !self.wf()
                },
            },
    {
        if self.hidden_size >= 1 && self.num_hidden_layers >= 1 && self.num_attention_heads >= 1
            && self.num_key_value_heads >= 1 && self.intermediate_size >= 1 && self.vocab_size >= 1
            && self.max_position_embeddings >= 1 && self.hidden_size % self.num_attention_heads
            == 0 && self.num_attention_heads % self.num_key_value_heads == 0 {
            Ok(())
        } else {
            Err(EngineError::ConfigError)
        }
    }
}

} // verus!
