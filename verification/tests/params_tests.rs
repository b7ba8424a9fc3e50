use llama_engine::config::ModelConfig;
use llama_engine::names::weight_name;
use llama_engine::params::LLamaParams;
use llama_engine::EngineError;
use safetensors::tensor::TensorView;
use safetensors::{serialize, Dtype, SafeTensors};

fn f32_bytes(vals: &[f32]) -> Vec<u8> {
    let mut out = Vec::new();
    for v in vals {
        out.extend_from_slice(&v.to_le_bytes());
    }
    out
}

fn small_config() -> ModelConfig {
    ModelConfig {
        hidden_size: 2,
        num_hidden_layers: 1,
        num_attention_heads: 2,
        num_key_value_heads: 1,
        intermediate_size: 3,
        vocab_size: 4,
        max_position_embeddings: 8,
        rms_norm_eps_bits: 1e-6f32.to_bits(),
        rope_theta_bits: 1e4f32.to_bits(),
        tie_word_embeddings: false,
        bos_token_id: 1,
        eos_token_id: 2,
    }
}

/// All tensors of the one-layer toy model, named as the checkpoint layout
/// demands. `hidden = 2`, `kv_dim = 1`, `intermediate = 3`, `vocab = 4`.
fn toy_tensors() -> Vec<(String, Vec<usize>, Vec<u8>)> {
    let mut out: Vec<(String, Vec<usize>, Vec<u8>)> = Vec::new();
    out.push((
        "model.embed_tokens.weight".to_string(),
        vec![4, 2],
        f32_bytes(&[1.0, 2.0, 3.0, 4.0, 5.0, 6.0, 7.0, 8.0]),
    ));
    out.push((
        "model.layers.0.input_layernorm.weight".to_string(),
        vec![2],
        f32_bytes(&[1.0, 1.0]),
    ));
    out.push((
        "model.layers.0.self_attn.q_proj.weight".to_string(),
        vec![2, 2],
        f32_bytes(&[0.1, 0.2, 0.3, 0.4]),
    ));
    out.push((
        "model.layers.0.self_attn.k_proj.weight".to_string(),
        vec![1, 2],
        f32_bytes(&[0.5, 0.6]),
    ));
    out.push((
        "model.layers.0.self_attn.v_proj.weight".to_string(),
        vec![1, 2],
        f32_bytes(&[0.7, 0.8]),
    ));
    out.push((
        "model.layers.0.self_attn.o_proj.weight".to_string(),
        vec![2, 2],
        f32_bytes(&[0.9, 1.1, 1.2, 1.3]),
    ));
    out.push((
        "model.layers.0.post_attention_layernorm.weight".to_string(),
        vec![2],
        f32_bytes(&[1.0, 1.0]),
    ));
    out.push((
        "model.layers.0.mlp.up_proj.weight".to_string(),
        vec![3, 2],
        f32_bytes(&[0.1, 0.1, 0.2, 0.2, 0.3, 0.3]),
    ));
    out.push((
        "model.layers.0.mlp.gate_proj.weight".to_string(),
        vec![3, 2],
        f32_bytes(&[0.4, 0.4, 0.5, 0.5, 0.6, 0.6]),
    ));
    out.push((
        "model.layers.0.mlp.down_proj.weight".to_string(),
        vec![2, 3],
        f32_bytes(&[0.7, 0.7, 0.7, 0.8, 0.8, 0.8]),
    ));
    out.push((
        "model.norm.weight".to_string(),
        vec![2],
        f32_bytes(&[1.0, 1.0]),
    ));
    out.push((
        "lm_head.weight".to_string(),
        vec![4, 2],
        f32_bytes(&[8.0, 7.0, 6.0, 5.0, 4.0, 3.0, 2.0, 1.0]),
    ));
    out
}

fn container_bytes(tensors: &[(String, Vec<usize>, Vec<u8>)]) -> Vec<u8> {
    let views: Vec<(String, TensorView)> = tensors
        .iter()
        .map(|(n, s, b)| {
            (
                n.clone(),
                TensorView::new(Dtype::F32, s.clone(), b).unwrap(),
            )
        })
        .collect();
    serialize(views, None).unwrap()
}

#[test]
fn load_succeeds_on_complete_checkpoint() {
    let bytes = container_bytes(&toy_tensors());
    let st = SafeTensors::deserialize(&bytes).unwrap();
    let cfg = small_config();
    let p = LLamaParams::from_safetensors(&st, &cfg).unwrap();
    assert_eq!(p.embedding_table.shape().clone(), vec![4, 2]);
    // the stored words are the raw little-endian float bits
    assert_eq!(p.embedding_table.data()[0], 1.0f32.to_bits());
    assert_eq!(p.embedding_table.data()[7], 8.0f32.to_bits());
    assert_eq!(p.wq.len(), 1);
    assert_eq!(p.wq[0].shape().clone(), vec![2, 2]);
    assert_eq!(p.wq[0].data()[3], 0.4f32.to_bits());
    assert_eq!(p.wk[0].shape().clone(), vec![1, 2]);
    assert_eq!(p.w_down[0].shape().clone(), vec![2, 3]);
    assert_eq!(p.rms_out_w.shape().clone(), vec![2]);
    assert_eq!(p.lm_head.data()[0], 8.0f32.to_bits());
}

#[test]
fn tied_embeddings_read_the_output_head() {
    let bytes = container_bytes(&toy_tensors());
    let st = SafeTensors::deserialize(&bytes).unwrap();
    let mut cfg = small_config();
    cfg.tie_word_embeddings = true;
    let p = LLamaParams::from_safetensors(&st, &cfg).unwrap();
    // the embedding table now aliases the head's payload
    assert_eq!(p.embedding_table.data()[0], 8.0f32.to_bits());
}

#[test]
fn missing_tensor_is_reported() {
    let tensors: Vec<(String, Vec<usize>, Vec<u8>)> = toy_tensors()
        .into_iter()
        .filter(|(n, _, _)| n != "model.layers.0.mlp.gate_proj.weight")
        .collect();
    let bytes = container_bytes(&tensors);
    let st = SafeTensors::deserialize(&bytes).unwrap();
    let r = LLamaParams::from_safetensors(&st, &small_config());
    assert!(matches!(r, Err(EngineError::CheckpointMissingTensor)));
}

#[test]
fn wrong_shape_is_reported() {
    let mut tensors = toy_tensors();
    for t in tensors.iter_mut() {
        if t.0 == "model.layers.0.self_attn.q_proj.weight" {
            t.1 = vec![1, 4];
        }
    }
    let bytes = container_bytes(&tensors);
    let st = SafeTensors::deserialize(&bytes).unwrap();
    let r = LLamaParams::from_safetensors(&st, &small_config());
    assert!(matches!(r, Err(EngineError::CheckpointShapeMismatch)));
}

#[test]
fn bad_config_is_fatal_before_any_lookup() {
    let bytes = container_bytes(&toy_tensors());
    let st = SafeTensors::deserialize(&bytes).unwrap();
    let mut cfg = small_config();
    cfg.num_attention_heads = 3;
    cfg.num_key_value_heads = 2;
    let r = LLamaParams::from_safetensors(&st, &cfg);
    assert!(matches!(r, Err(EngineError::ConfigError)));
    let mut cfg2 = small_config();
    cfg2.vocab_size = 0;
    assert!(matches!(
        LLamaParams::from_safetensors(&st, &cfg2),
        Err(EngineError::ConfigError)
    ));
}

#[test]
fn config_validate_and_head_dim() {
    let cfg = small_config();
    cfg.validate().unwrap();
    assert_eq!(cfg.head_dim(), 1);
}

#[test]
fn weight_names_follow_the_convention() {
    assert_eq!(
        weight_name("model.layers.", 0, ".input_layernorm.weight"),
        "model.layers.0.input_layernorm.weight"
    );
    assert_eq!(
        weight_name("model.layers.", 27, ".mlp.up_proj.weight"),
        "model.layers.27.mlp.up_proj.weight"
    );
    assert_eq!(weight_name("a", 1205, "b"), "a1205b");
}
