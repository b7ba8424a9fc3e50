use vstd::prelude::*;
use vstd::arithmetic::div_mod::{lemma_fundamental_div_mod, lemma_small_mod};
use vstd::string::StringExecFns;
use crate::EngineError;
use crate::config::ModelConfig;
use crate::names::{spec_weight_name, weight_name};
use crate::tensor::{elem_product, Tensor};
use safetensors::SafeTensors;

verus! {

#[verifier::external_type_specification]
#[verifier::external_body]
pub struct ExSafeTensors<'a>(SafeTensors<'a>);

/// What the checkpoint container holds: for every tensor name, the declared
/// shape and the raw payload bytes.
pub uninterp spec fn st_entries(st: &SafeTensors) -> Map<Seq<char>, (Seq<usize>, Seq<u8>)>;

/// Relies on safetensors::SafeTensors::tensor: a lookup in the container's
/// name index; a hit yields that tensor's declared shape and raw payload,
/// a miss is reported as an error.
#[verifier::external_body]
fn st_lookup(st: &SafeTensors, name: &str) -> (r: Option<(Vec<usize>, Vec<u8>)>)
    ensures
        match r {
            Some(e) => {
                &&& st_entries(st).contains_key(name@)
                &&& e.0@ == st_entries(st)[name@].0
                &&& e.1@ == st_entries(st)[name@].1
            },
            None => !st_entries(st).contains_key(name@),
        },
{
    match st.tensor(name) {
        Ok(view) => Some((view.shape().to_vec(), view.data().to_vec())),
        Err(_) => None,
    }
}

/// The 32-bit word stored as four little-endian bytes.
pub open spec fn le_word(b0: u8, b1: u8, b2: u8, b3: u8) -> u32 {
    (b0 + b1 * 0x100 + b2 * 0x10000 + b3 * 0x1000000) as u32
}

/// A little-endian byte payload, read as 32-bit words.
pub open spec fn le_words(bytes: Seq<u8>) -> Seq<u32> {
    Seq::new(
        (bytes.len() / 4) as nat,
        |i: int| le_word(bytes[4 * i], bytes[4 * i + 1], bytes[4 * i + 2], bytes[4 * i + 3]),
    )
}

/// Reads a payload of four-byte little-endian words.
fn decode_words(bytes: &Vec<u8>) -> (r: Vec<u32>)
    requires
        bytes@.len() % 4 == 0,
    ensures
        r@ == le_words(bytes@),
{
    proof {
        lemma_fundamental_div_mod(bytes@.len() as int, 4);
    }
    let blen: usize = bytes.len();
    let n: usize = blen / 4;
    let mut out: Vec<u32> = Vec::new();
    let mut i: usize = 0;
    while i < n
        invariant
            0 <= i <= n,
            blen == bytes@.len(),
            blen == 4 * n,
            out@.len() == i,
            forall|j: int|
                0 <= j < i ==> #[trigger] out@[j] == le_word(
                    bytes@[4 * j],
                    bytes@[4 * j + 1],
                    bytes@[4 * j + 2],
                    bytes@[4 * j + 3],
                ),
        decreases n - i,
    {
        let w: u32 = bytes[4 * i] as u32 + (bytes[4 * i + 1] as u32) * 0x100 + (bytes[4 * i
            + 2] as u32) * 0x10000 + (bytes[4 * i + 3] as u32) * 0x1000000;
        out.push(w);
        i = i + 1;
    }
    proof {
        assert(out@ =~= le_words(bytes@));
    }
    out
}

/// Elementwise equality of two shape vectors.
fn shapes_equal(a: &Vec<usize>, b: &Vec<usize>) -> (r: bool)
    ensures
        r == (a@ == b@),
{
    if a.len() != b.len() {
        proof {
            assert(a@ != b@);
        }
        return false;
    }
    let mut i: usize = 0;
    while i < a.len()
        invariant
            0 <= i <= a@.len(),
            a@.len() == b@.len(),
            forall|j: int| 0 <= j < i ==> a@[j] == b@[j],
        decreases a@.len() - i,
    {
        if a[i] != b[i] {
            return false;
        }
        i = i + 1;
    }
    proof {
        assert(a@ =~= b@);
    }
    true
}

/// The container has the named tensor, with the expected shape and one
/// four-byte word per element.
pub open spec fn entry_good(
    entries: Map<Seq<char>, (Seq<usize>, Seq<u8>)>,
    name: Seq<char>,
    shape: Seq<usize>,
) -> bool {
    &&& entries.contains_key(name)
    &&& entries[name].0 == shape
    &&& entries[name].1.len() == 4 * elem_product(shape)
}

/// Fetches one named tensor and checks it against the expected shape; the
/// elements stay raw 32-bit words.
fn load_tensor(st: &SafeTensors, name: &String, expected: &Vec<usize>) -> (r: Result<
    Tensor<u32>,
    EngineError,
>)
    ensures
        match r {
            Ok(t) => {
                &&& entry_good(st_entries(st), name@, expected@)
                &&& t.wf()
                &&& t.spec_shape() == expected@
                &&& t.spec_data() == le_words(st_entries(st)[name@].1)
            },
            Err(EngineError::CheckpointMissingTensor) => !st_entries(st).contains_key(name@),
            Err(EngineError::CheckpointShapeMismatch) => {
                &&& st_entries(st).contains_key(name@)
                &&& st_entries(st)[name@].0 != expected@
            },
            Err(EngineError::CheckpointBadPayload) => {
                &&& st_entries(st).contains_key(name@)
                &&& st_entries(st)[name@].0 == expected@
                &&& st_entries(st)[name@].1.len() != 4 * elem_product(expected@)
            },
            _ => false,
        },
{
    let looked = st_lookup(st, name.as_str());
    match looked {
        None => Err(EngineError::CheckpointMissingTensor),
        Some((shape, bytes)) => {
            if !shapes_equal(&shape, expected) {
                return Err(EngineError::CheckpointShapeMismatch);
            }
            proof {
                lemma_fundamental_div_mod(bytes@.len() as int, 4);
            }
            if bytes.len() % 4 != 0 {
                return Err(EngineError::CheckpointBadPayload);
            }
            let words_n: usize = bytes.len() / 4;
            if !Tensor::<u32>::len_matches(words_n, expected) {
                return Err(EngineError::CheckpointBadPayload);
            }
            let words = decode_words(&bytes);
            match Tensor::new(words, shape) {
                Ok(t) => Ok(t),
                Err(_) => {
                    proof {
                        // the word count was checked against the shape
                        assert(false);
                    }
                    Err(EngineError::CheckpointBadPayload)
                },
            }
        },
    }
}

/// The per-layer name prefix of the checkpoint's naming convention.
pub open spec fn layer_name(i: nat, suffix: Seq<char>) -> Seq<char> {
    spec_weight_name("model.layers."@, i, suffix)
}

/// Where the embedding table is stored: under the output head's name when
/// embedding tying is enabled, under its own name otherwise.
pub open spec fn emb_name(cfg: &ModelConfig) -> Seq<char> {
    if cfg.tie_word_embeddings {
        "lm_head.weight"@
    } else {
        "model.embed_tokens.weight"@
    }
}

/// Total width of the key/value heads.
pub open spec fn kv_dim(cfg: &ModelConfig) -> int {
    cfg.num_key_value_heads as int * cfg.spec_head_dim()
}

/// Every tensor of layer `i` is present with its expected shape and a
/// four-byte word per element.
pub open spec fn layer_entries_good(
    entries: Map<Seq<char>, (Seq<usize>, Seq<u8>)>,
    cfg: &ModelConfig,
    i: nat,
) -> bool {
    let h = cfg.hidden_size;
    let kvd = kv_dim(cfg) as usize;
    let inter = cfg.intermediate_size;
    &&& entry_good(entries, layer_name(i, ".input_layernorm.weight"@), seq![h])
    &&& entry_good(entries, layer_name(i, ".self_attn.q_proj.weight"@), seq![h, h])
    &&& entry_good(entries, layer_name(i, ".self_attn.k_proj.weight"@), seq![kvd, h])
    &&& entry_good(entries, layer_name(i, ".self_attn.v_proj.weight"@), seq![kvd, h])
    &&& entry_good(entries, layer_name(i, ".self_attn.o_proj.weight"@), seq![h, h])
    &&& entry_good(entries, layer_name(i, ".post_attention_layernorm.weight"@), seq![h])
    &&& entry_good(entries, layer_name(i, ".mlp.up_proj.weight"@), seq![inter, h])
    &&& entry_good(entries, layer_name(i, ".mlp.gate_proj.weight"@), seq![inter, h])
    &&& entry_good(entries, layer_name(i, ".mlp.down_proj.weight"@), seq![h, inter])
}

/// The whole checkpoint is usable for this configuration: the embedding
/// table, every layer's nine weights, the final norm and the output head
/// are all present, correctly shaped, and sized at a word per element.
pub open spec fn checkpoint_complete(
    entries: Map<Seq<char>, (Seq<usize>, Seq<u8>)>,
    cfg: &ModelConfig,
) -> bool {
    let h = cfg.hidden_size;
    let v = cfg.vocab_size;
    &&& entry_good(entries, emb_name(cfg), seq![v, h])
    &&& forall|i: int|
        0 <= i < cfg.num_hidden_layers ==> #[trigger] layer_entries_good(entries, cfg, i as nat)
    &&& entry_good(entries, "model.norm.weight"@, seq![h])
    &&& entry_good(entries, "lm_head.weight"@, seq![v, h])
}

/// The model's weights, as raw 32-bit words in the layout the checkpoint
/// declares. The numeric shell decodes the words into its element type.
pub struct LLamaParams<T> {
    /// token embedding lookup table, `(vocab_size, hidden_size)`
    pub embedding_table: Tensor<T>,
    /// attention-norm weight per layer, `(hidden_size,)`
    pub rms_att_w: Vec<Tensor<T>>,
    /// query projection per layer, `(hidden_size, hidden_size)`
    pub wq: Vec<Tensor<T>>,
    /// key projection per layer, `(kv_dim, hidden_size)`
    pub wk: Vec<Tensor<T>>,
    /// value projection per layer, `(kv_dim, hidden_size)`
    pub wv: Vec<Tensor<T>>,
    /// output projection per layer, `(hidden_size, hidden_size)`
    pub wo: Vec<Tensor<T>>,
    /// feed-forward-norm weight per layer, `(hidden_size,)`
    pub rms_ffn_w: Vec<Tensor<T>>,
    /// up projection per layer, `(intermediate_size, hidden_size)`
    pub w_up: Vec<Tensor<T>>,
    /// gate projection per layer, `(intermediate_size, hidden_size)`
    pub w_gate: Vec<Tensor<T>>,
    /// down projection per layer, `(hidden_size, intermediate_size)`
    pub w_down: Vec<Tensor<T>>,
    /// final-norm weight, `(hidden_size,)`
    pub rms_out_w: Tensor<T>,
    /// output projection, `(vocab_size, hidden_size)`
    pub lm_head: Tensor<T>,
}

impl LLamaParams<u32> {
    /// Every stored tensor is well formed and has the shape the
    /// configuration calls for.
    pub open spec fn wf(&self, cfg: &ModelConfig) -> bool {
        let h = cfg.hidden_size;
        let v = cfg.vocab_size;
        let kvd = kv_dim(cfg) as usize;
        let inter = cfg.intermediate_size;
        let n = cfg.num_hidden_layers;
        &&& self.embedding_table.wf() && self.embedding_table.spec_shape() == seq![v, h]
        &&& self.rms_att_w@.len() == n && forall|i: int|
            0 <= i < n ==> (#[trigger] self.rms_att_w@[i]).wf() && self.rms_att_w@[i].spec_shape()
                == seq![h]
        &&& self.wq@.len() == n && forall|i: int|
            0 <= i < n ==> (#[trigger] self.wq@[i]).wf() && self.wq@[i].spec_shape() == seq![h, h]
        &&& self.wk@.len() == n && forall|i: int|
            0 <= i < n ==> (#[trigger] self.wk@[i]).wf() && self.wk@[i].spec_shape() == seq![kvd, h]
        &&& self.wv@.len() == n && forall|i: int|
            0 <= i < n ==> (#[trigger] self.wv@[i]).wf() && self.wv@[i].spec_shape() == seq![kvd, h]
        &&& self.wo@.len() == n && forall|i: int|
            0 <= i < n ==> (#[trigger] self.wo@[i]).wf() && self.wo@[i].spec_shape() == seq![h, h]
        &&& self.rms_ffn_w@.len() == n && forall|i: int|
            0 <= i < n ==> (#[trigger] self.rms_ffn_w@[i]).wf() && self.rms_ffn_w@[i].spec_shape()
                == seq![h]
        &&& self.w_up@.len() == n && forall|i: int|
            0 <= i < n ==> (#[trigger] self.w_up@[i]).wf() && self.w_up@[i].spec_shape()
                == seq![inter, h]
        &&& self.w_gate@.len() == n && forall|i: int|
            0 <= i < n ==> (#[trigger] self.w_gate@[i]).wf() && self.w_gate@[i].spec_shape()
                == seq![inter, h]
        &&& self.w_down@.len() == n && forall|i: int|
            0 <= i < n ==> (#[trigger] self.w_down@[i]).wf() && self.w_down@[i].spec_shape()
                == seq![h, inter]
        &&& self.rms_out_w.wf() && self.rms_out_w.spec_shape() == seq![h]
        &&& self.lm_head.wf() && self.lm_head.spec_shape() == seq![v, h]
    }

    /// Every stored tensor holds exactly the words of its checkpoint
    /// payload.
    pub open spec fn loaded_from(
        &self,
        entries: Map<Seq<char>, (Seq<usize>, Seq<u8>)>,
        cfg: &ModelConfig,
    ) -> bool {
        &&& self.embedding_table.spec_data() == le_words(entries[emb_name(cfg)].1)
        &&& forall|i: int|
            0 <= i < cfg.num_hidden_layers ==> (#[trigger] self.rms_att_w@[i]).spec_data()
                == le_words(entries[layer_name(i as nat, ".input_layernorm.weight"@)].1)
        &&& forall|i: int|
            0 <= i < cfg.num_hidden_layers ==> (#[trigger] self.wq@[i]).spec_data() == le_words(
                entries[layer_name(i as nat, ".self_attn.q_proj.weight"@)].1,
            )
        &&& forall|i: int|
            0 <= i < cfg.num_hidden_layers ==> (#[trigger] self.wk@[i]).spec_data() == le_words(
                entries[layer_name(i as nat, ".self_attn.k_proj.weight"@)].1,
            )
        &&& forall|i: int|
            0 <= i < cfg.num_hidden_layers ==> (#[trigger] self.wv@[i]).spec_data() == le_words(
                entries[layer_name(i as nat, ".self_attn.v_proj.weight"@)].1,
            )
        &&& forall|i: int|
            0 <= i < cfg.num_hidden_layers ==> (#[trigger] self.wo@[i]).spec_data() == le_words(
                entries[layer_name(i as nat, ".self_attn.o_proj.weight"@)].1,
            )
        &&& forall|i: int|
            0 <= i < cfg.num_hidden_layers ==> (#[trigger] self.rms_ffn_w@[i]).spec_data()
                == le_words(entries[layer_name(i as nat, ".post_attention_layernorm.weight"@)].1)
        &&& forall|i: int|
            0 <= i < cfg.num_hidden_layers ==> (#[trigger] self.w_up@[i]).spec_data() == le_words(
                entries[layer_name(i as nat, ".mlp.up_proj.weight"@)].1,
            )
        &&& forall|i: int|
            0 <= i < cfg.num_hidden_layers ==> (#[trigger] self.w_gate@[i]).spec_data()
                == le_words(entries[layer_name(i as nat, ".mlp.gate_proj.weight"@)].1)
        &&& forall|i: int|
            0 <= i < cfg.num_hidden_layers ==> (#[trigger] self.w_down@[i]).spec_data()
                == le_words(entries[layer_name(i as nat, ".mlp.down_proj.weight"@)].1)
        &&& self.rms_out_w.spec_data() == le_words(entries["model.norm.weight"@].1)
        &&& self.lm_head.spec_data() == le_words(entries["lm_head.weight"@].1)
    }

    /// Loads every weight the configuration calls for from the checkpoint
    /// container; succeeds exactly when the configuration is usable and the
    /// container holds all of them with their expected shapes and sizes.
    pub fn from_safetensors(st: &SafeTensors, config: &ModelConfig) -> (r: Result<
        LLamaParams<u32>,
        EngineError,
    >)
        ensures
            match r {
                Ok(p) => {
                    &&& config.wf()
                    &&& checkpoint_complete(st_entries(st), config)
                    &&& p.wf(config)
                    &&& p.loaded_from(st_entries(st), config)
                },
                Err(e) => {
                    &&& (e == EngineError::ConfigError || e == EngineError::CheckpointMissingTensor
                        || e == EngineError::CheckpointShapeMismatch
                        || e == EngineError::CheckpointBadPayload)
                    &&& (e == EngineError::ConfigError <==> !config.wf())
                    &&& (e != EngineError::ConfigError ==> !checkpoint_complete(
                        st_entries(st),
                        config,
                    ))
                },
            },
    {
        if let Err(e) = config.validate() {
            return Err(e);
        }
        let h: usize = config.hidden_size;
        let v: usize = config.vocab_size;
        let inter: usize = config.intermediate_size;
        let n_layers: usize = config.num_hidden_layers;
        let hd: usize = config.head_dim();
        proof {
            lemma_fundamental_div_mod(config.hidden_size as int, config.num_attention_heads as int);
            assert(config.num_key_value_heads <= config.num_attention_heads) by {
                if config.num_key_value_heads > config.num_attention_heads {
                    lemma_small_mod(
                        config.num_attention_heads as nat,
                        config.num_key_value_heads as nat,
                    );
                }
            }
            assert(config.num_key_value_heads * hd <= config.num_attention_heads * hd)
                by (nonlinear_arith)
                requires
                    config.num_key_value_heads <= config.num_attention_heads,
                    hd >= 0,
            ;
            assert(config.num_attention_heads * hd == h);
        }
        let kvd: usize = config.num_key_value_heads * hd;
        proof {
            assert(kvd == kv_dim(config));
        }
        let shape_vh: Vec<usize> = vec![v, h];
        let shape_h: Vec<usize> = vec![h];
        let shape_hh: Vec<usize> = vec![h, h];
        let shape_kh: Vec<usize> = vec![kvd, h];
        let shape_ih: Vec<usize> = vec![inter, h];
        let shape_hi: Vec<usize> = vec![h, inter];
        proof {
            assert(shape_vh@ =~= seq![v, h]);
            assert(shape_h@ =~= seq![h]);
            assert(shape_hh@ =~= seq![h, h]);
            assert(shape_kh@ =~= seq![kvd, h]);
            assert(shape_ih@ =~= seq![inter, h]);
            assert(shape_hi@ =~= seq![h, inter]);
        }
        let emb = {
            let name = if config.tie_word_embeddings {
                String::from_str("lm_head.weight")
            } else {
                String::from_str("model.embed_tokens.weight")
            };
            proof {
                assert(name@ == emb_name(config));
            }
            match load_tensor(st, &name, &shape_vh) {
                Ok(t) => t,
                Err(e) => {
                    return Err(e);
                },
            }
        };
        let mut rms_att_w: Vec<Tensor<u32>> = Vec::new();
        let mut wq: Vec<Tensor<u32>> = Vec::new();
        let mut wk: Vec<Tensor<u32>> = Vec::new();
        let mut wv: Vec<Tensor<u32>> = Vec::new();
        let mut wo: Vec<Tensor<u32>> = Vec::new();
        let mut rms_ffn_w: Vec<Tensor<u32>> = Vec::new();
        let mut w_up: Vec<Tensor<u32>> = Vec::new();
        let mut w_gate: Vec<Tensor<u32>> = Vec::new();
        let mut w_down: Vec<Tensor<u32>> = Vec::new();
        let mut i: usize = 0;
        while i < n_layers
            invariant
                0 <= i <= n_layers,
                n_layers == config.num_hidden_layers,
                config.wf(),
                h == config.hidden_size,
                v == config.vocab_size,
                inter == config.intermediate_size,
                kvd == kv_dim(config) as usize,
                shape_h@ == seq![h],
                shape_hh@ == seq![h, h],
                shape_kh@ == seq![kvd, h],
                shape_ih@ == seq![inter, h],
                shape_hi@ == seq![h, inter],
                rms_att_w@.len() == i && wq@.len() == i && wk@.len() == i && wv@.len() == i
                    && wo@.len() == i && rms_ffn_w@.len() == i && w_up@.len() == i && w_gate@.len()
                    == i && w_down@.len() == i,
                forall|j: int| 0 <= j < i ==> #[trigger] layer_entries_good(st_entries(st), config, j as nat),
                forall|j: int|
                    0 <= j < i ==> (#[trigger] rms_att_w@[j]).wf() && rms_att_w@[j].spec_shape()
                        == seq![h] && rms_att_w@[j].spec_data() == le_words(
                        st_entries(st)[layer_name(j as nat, ".input_layernorm.weight"@)].1,
                    ),
                forall|j: int|
                    0 <= j < i ==> (#[trigger] wq@[j]).wf() && wq@[j].spec_shape() == seq![h, h]
                        && wq@[j].spec_data() == le_words(
                        st_entries(st)[layer_name(j as nat, ".self_attn.q_proj.weight"@)].1,
                    ),
                forall|j: int|
                    0 <= j < i ==> (#[trigger] wk@[j]).wf() && wk@[j].spec_shape() == seq![kvd, h]
                        && wk@[j].spec_data() == le_words(
                        st_entries(st)[layer_name(j as nat, ".self_attn.k_proj.weight"@)].1,
                    ),
                forall|j: int|
                    0 <= j < i ==> (#[trigger] wv@[j]).wf() && wv@[j].spec_shape() == seq![kvd, h]
                        && wv@[j].spec_data() == le_words(
                        st_entries(st)[layer_name(j as nat, ".self_attn.v_proj.weight"@)].1,
                    ),
                forall|j: int|
                    0 <= j < i ==> (#[trigger] wo@[j]).wf() && wo@[j].spec_shape() == seq![h, h]
                        && wo@[j].spec_data() == le_words(
                        st_entries(st)[layer_name(j as nat, ".self_attn.o_proj.weight"@)].1,
                    ),
                forall|j: int|
                    0 <= j < i ==> (#[trigger] rms_ffn_w@[j]).wf() && rms_ffn_w@[j].spec_shape()
                        == seq![h] && rms_ffn_w@[j].spec_data() == le_words(
                        st_entries(st)[layer_name(j as nat, ".post_attention_layernorm.weight"@)].1,
                    ),
                forall|j: int|
                    0 <= j < i ==> (#[trigger] w_up@[j]).wf() && w_up@[j].spec_shape()
                        == seq![inter, h] && w_up@[j].spec_data() == le_words(
                        st_entries(st)[layer_name(j as nat, ".mlp.up_proj.weight"@)].1,
                    ),
                forall|j: int|
                    0 <= j < i ==> (#[trigger] w_gate@[j]).wf() && w_gate@[j].spec_shape()
                        == seq![inter, h] && w_gate@[j].spec_data() == le_words(
                        st_entries(st)[layer_name(j as nat, ".mlp.gate_proj.weight"@)].1,
                    ),
                forall|j: int|
                    0 <= j < i ==> (#[trigger] w_down@[j]).wf() && w_down@[j].spec_shape()
                        == seq![h, inter] && w_down@[j].spec_data() == le_words(
                        st_entries(st)[layer_name(j as nat, ".mlp.down_proj.weight"@)].1,
                    ),
            decreases n_layers - i,
        {
            let name_att = weight_name("model.layers.", i, ".input_layernorm.weight");
            let t_att = match load_tensor(st, &name_att, &shape_h) {
                Ok(t) => t,
                Err(e) => {
                    proof {
                        let ghost ii: int = i as int;
                        assert(checkpoint_complete(st_entries(st), config)
                            ==> layer_entries_good(st_entries(st), config, ii as nat));
                        assert(checkpoint_complete(st_entries(st), config)
                            ==> layer_entries_good(st_entries(st), config, i as nat));
                    }
                    return Err(e);
                },
            };
            let name_q = weight_name("model.layers.", i, ".self_attn.q_proj.weight");
            let t_q = match load_tensor(st, &name_q, &shape_hh) {
                Ok(t) => t,
                Err(e) => {
                    proof {
                        let ghost ii: int = i as int;
                        assert(checkpoint_complete(st_entries(st), config)
                            ==> layer_entries_good(st_entries(st), config, ii as nat));
                        assert(checkpoint_complete(st_entries(st), config)
                            ==> layer_entries_good(st_entries(st), config, i as nat));
                    }
                    return Err(e);
                },
            };
            let name_k = weight_name("model.layers.", i, ".self_attn.k_proj.weight");
            let t_k = match load_tensor(st, &name_k, &shape_kh) {
                Ok(t) => t,
                Err(e) => {
                    proof {
                        let ghost ii: int = i as int;
                        assert(checkpoint_complete(st_entries(st), config)
                            ==> layer_entries_good(st_entries(st), config, ii as nat));
                        assert(checkpoint_complete(st_entries(st), config)
                            ==> layer_entries_good(st_entries(st), config, i as nat));
                    }
                    return Err(e);
                },
            };
            let name_v = weight_name("model.layers.", i, ".self_attn.v_proj.weight");
            let t_v = match load_tensor(st, &name_v, &shape_kh) {
                Ok(t) => t,
                Err(e) => {
                    proof {
                        let ghost ii: int = i as int;
                        assert(checkpoint_complete(st_entries(st), config)
                            ==> layer_entries_good(st_entries(st), config, ii as nat));
                        assert(checkpoint_complete(st_entries(st), config)
                            ==> layer_entries_good(st_entries(st), config, i as nat));
                    }
                    return Err(e);
                },
            };
            let name_o = weight_name("model.layers.", i, ".self_attn.o_proj.weight");
            let t_o = match load_tensor(st, &name_o, &shape_hh) {
                Ok(t) => t,
                Err(e) => {
                    proof {
                        let ghost ii: int = i as int;
                        assert(checkpoint_complete(st_entries(st), config)
                            ==> layer_entries_good(st_entries(st), config, ii as nat));
                        assert(checkpoint_complete(st_entries(st), config)
                            ==> layer_entries_good(st_entries(st), config, i as nat));
                    }
                    return Err(e);
                },
            };
            let name_ffn = weight_name("model.layers.", i, ".post_attention_layernorm.weight");
            let t_ffn = match load_tensor(st, &name_ffn, &shape_h) {
                Ok(t) => t,
                Err(e) => {
                    proof {
                        let ghost ii: int = i as int;
                        assert(checkpoint_complete(st_entries(st), config)
                            ==> layer_entries_good(st_entries(st), config, ii as nat));
                        assert(checkpoint_complete(st_entries(st), config)
                            ==> layer_entries_good(st_entries(st), config, i as nat));
                    }
                    return Err(e);
                },
            };
            let name_up = weight_name("model.layers.", i, ".mlp.up_proj.weight");
            let t_up = match load_tensor(st, &name_up, &shape_ih) {
                Ok(t) => t,
                Err(e) => {
                    proof {
                        let ghost ii: int = i as int;
                        assert(checkpoint_complete(st_entries(st), config)
                            ==> layer_entries_good(st_entries(st), config, ii as nat));
                        assert(checkpoint_complete(st_entries(st), config)
                            ==> layer_entries_good(st_entries(st), config, i as nat));
                    }
                    return Err(e);
                },
            };
            let name_gate = weight_name("model.layers.", i, ".mlp.gate_proj.weight");
            let t_gate = match load_tensor(st, &name_gate, &shape_ih) {
                Ok(t) => t,
                Err(e) => {
                    proof {
                        let ghost ii: int = i as int;
                        assert(checkpoint_complete(st_entries(st), config)
                            ==> layer_entries_good(st_entries(st), config, ii as nat));
                        assert(checkpoint_complete(st_entries(st), config)
                            ==> layer_entries_good(st_entries(st), config, i as nat));
                    }
                    return Err(e);
                },
            };
            let name_down = weight_name("model.layers.", i, ".mlp.down_proj.weight");
            let t_down = match load_tensor(st, &name_down, &shape_hi) {
                Ok(t) => t,
                Err(e) => {
                    proof {
                        let ghost ii: int = i as int;
                        assert(checkpoint_complete(st_entries(st), config)
                            ==> layer_entries_good(st_entries(st), config, ii as nat));
                        assert(checkpoint_complete(st_entries(st), config)
                            ==> layer_entries_good(st_entries(st), config, i as nat));
                    }
                    return Err(e);
                },
            };
            rms_att_w.push(t_att);
            wq.push(t_q);
            wk.push(t_k);
            wv.push(t_v);
            wo.push(t_o);
            rms_ffn_w.push(t_ffn);
            w_up.push(t_up);
            w_gate.push(t_gate);
            w_down.push(t_down);
            proof {
                assert(layer_entries_good(st_entries(st), config, i as nat));
            }
            i = i + 1;
        }
        let norm_name = String::from_str("model.norm.weight");
        let rms_out_w = match load_tensor(st, &norm_name, &shape_h) {
            Ok(t) => t,
            Err(e) => {
                return Err(e);
            },
        };
        let head_name = String::from_str("lm_head.weight");
        let lm_head = match load_tensor(st, &head_name, &shape_vh) {
            Ok(t) => t,
            Err(e) => {
                return Err(e);
            },
        };
        let p = LLamaParams {
            embedding_table: emb,
            rms_att_w,
            wq,
            wk,
            wv,
            wo,
            rms_ffn_w,
            w_up,
            w_gate,
            w_down,
            rms_out_w,
            lm_head,
        };
        proof {
            assert(checkpoint_complete(st_entries(st), config));
            assert(p.wf(config));
            assert(p.loaded_from(st_entries(st), config));
        }
        Ok(p)
    }
}

} // verus!
