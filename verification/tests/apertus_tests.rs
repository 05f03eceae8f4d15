use mlxcel_models::apertus::{default_rope_theta, ApertusModel, ModelArgs, Quantization};
use mlxcel_models::json::ScalingBlock;
use mlxcel_models::plan::Kernel;
use mlxcel_models::single::Single;
use mlxcel_models::steps::StepKind;
use serde_json::Value;

fn single(x: f32) -> Single {
    Single { bits: x.to_bits(), text: x.to_string() }
}

fn value_of(s: &Single) -> f32 {
    f32::from_bits(s.bits)
}

fn count(v: &Value, key: &str) -> Option<usize> {
    v.get(key).and_then(Value::as_u64).map(|n| n as usize)
}

fn flag(v: &Value, key: &str) -> bool {
    v.get(key).and_then(Value::as_bool).unwrap_or(false)
}

fn number(v: &Value, key: &str) -> Option<Single> {
    v.get(key).and_then(Value::as_f64).map(|x| single(x as f32))
}

fn parse(json: &str) -> Result<ModelArgs, serde_json::Error> {
    let v: Value = serde_json::from_str(json)?;
    Ok(ModelArgs {
        model_type: v.get("model_type").and_then(Value::as_str).unwrap().to_string(),
        hidden_size: count(&v, "hidden_size").unwrap(),
        num_hidden_layers: count(&v, "num_hidden_layers").unwrap(),
        intermediate_size: count(&v, "intermediate_size").unwrap(),
        num_attention_heads: count(&v, "num_attention_heads").unwrap(),
        num_key_value_heads: count(&v, "num_key_value_heads").unwrap(),
        rms_norm_eps: number(&v, "rms_norm_eps").unwrap(),
        vocab_size: count(&v, "vocab_size").unwrap(),
        head_dim: count(&v, "head_dim"),
        max_position_embeddings: count(&v, "max_position_embeddings"),
        rope_theta: number(&v, "rope_theta").unwrap_or_else(default_rope_theta),
        rope_scaling: v.get("rope_scaling").and_then(Value::as_object).map(|m| ScalingBlock {
            members: m.iter().map(|(k, x)| (k.clone(), x.clone())).collect(),
        }),
        qk_norm: flag(&v, "qk_norm"),
        post_norm: flag(&v, "post_norm"),
        attention_bias: flag(&v, "attention_bias"),
        mlp_bias: flag(&v, "mlp_bias"),
        tie_word_embeddings: flag(&v, "tie_word_embeddings"),
        quantization: v.get("quantization").map(|q| Quantization {
            group_size: q.get("group_size").and_then(Value::as_i64).unwrap() as i32,
            bits: q.get("bits").and_then(Value::as_i64).unwrap() as i32,
        }),
    })
}

const APERTUS_8B_CONFIG: &str = r#"{
    "model_type": "apertus",
    "attention_bias": false,
    "hidden_size": 4096,
    "intermediate_size": 21504,
    "max_position_embeddings": 65536,
    "mlp_bias": false,
    "num_attention_heads": 32,
    "num_hidden_layers": 32,
    "num_key_value_heads": 8,
    "post_norm": false,
    "qk_norm": true,
    "rms_norm_eps": 1e-05,
    "rope_scaling": {
        "factor": 8.0,
        "high_freq_factor": 4.0,
        "low_freq_factor": 1.0,
        "original_max_position_embeddings": 8192,
        "rope_type": "llama3",
        "type": "llama3"
    },
    "rope_theta": 12000000,
    "tie_word_embeddings": false,
    "vocab_size": 131072,
    "quantization": { "group_size": 64, "bits": 4 }
}"#;

#[test]
fn apertus_config_parses_core_fields() {
    let args: ModelArgs = parse(APERTUS_8B_CONFIG).expect("parse apertus config");
    assert_eq!(args.model_type, "apertus");
    assert_eq!(args.hidden_size, 4096);
    assert_eq!(args.num_hidden_layers, 32);
    assert_eq!(args.intermediate_size, 21504);
    assert_eq!(args.num_attention_heads, 32);
    assert_eq!(args.num_key_value_heads, 8);
    assert_eq!(args.vocab_size, 131072);
    assert_eq!(value_of(&args.rope_theta), 12_000_000.0);
}

#[test]
fn apertus_delta_flags_parse() {
    let args: ModelArgs = parse(APERTUS_8B_CONFIG).expect("parse apertus config");
    assert!(args.qk_norm);
    assert!(!args.post_norm);
    assert!(!args.tie_word_embeddings);
}

#[test]
fn apertus_head_dim_derives_from_hidden_and_heads() {
    let args: ModelArgs = parse(APERTUS_8B_CONFIG).expect("parse apertus config");
    assert_eq!(args.head_dim(), 4096 / 32);
    assert_eq!(args.head_dim(), 128);
}

#[test]
fn apertus_rope_scaling_llama3_fields_parse() {
    let args: ModelArgs = parse(APERTUS_8B_CONFIG).expect("parse apertus config");
    let scaling = args
        .rope_scaling
        .as_ref()
        .expect("apertus ships rope_scaling");
    assert_eq!(
        scaling.get("rope_type").and_then(|v| v.as_str()),
        Some("llama3")
    );
    assert_eq!(scaling.get("factor").and_then(|v| v.as_f64()), Some(8.0));
    assert_eq!(
        scaling.get("low_freq_factor").and_then(|v| v.as_f64()),
        Some(1.0)
    );
    assert_eq!(
        scaling.get("high_freq_factor").and_then(|v| v.as_f64()),
        Some(4.0)
    );
    assert_eq!(
        scaling
            .get("original_max_position_embeddings")
            .and_then(|v| v.as_u64()),
        Some(8192)
    );
}

#[test]
fn apertus_quantization_is_read_from_config() {
    let args: ModelArgs = parse(APERTUS_8B_CONFIG).expect("parse apertus config");
    assert_eq!(args.group_size(), 64);
    assert_eq!(args.bits(), 4);
}

#[test]
fn apertus_optional_flags_default_when_absent() {
    let minimal = r#"{
        "model_type": "apertus",
        "hidden_size": 64,
        "num_hidden_layers": 2,
        "intermediate_size": 128,
        "num_attention_heads": 4,
        "num_key_value_heads": 2,
        "rms_norm_eps": 1e-05,
        "vocab_size": 100
    }"#;
    let args: ModelArgs = parse(minimal).expect("parse minimal apertus config");
    assert!(!args.qk_norm);
    assert!(!args.post_norm);
    assert!(!args.tie_word_embeddings);
    assert!(args.quantization.is_none());
    assert_eq!(args.group_size(), 64);
    assert_eq!(args.bits(), 4);
    assert_eq!(value_of(&args.rope_theta), 10_000.0);
    assert!(args.rope_scaling.is_none());
}

#[test]
fn apertus_scaled_rope_replaces_the_base() {
    let args = parse(APERTUS_8B_CONFIG).unwrap();
    assert_eq!(args.compute_rope_freqs(), Some(64));
    let mut linear = parse(APERTUS_8B_CONFIG).unwrap();
    linear.rope_scaling = Some(ScalingBlock {
        members: vec![("rope_type".to_string(), Value::String("linear".to_string()))],
    });
    assert_eq!(linear.compute_rope_freqs(), None);
    linear.rope_scaling = None;
    assert_eq!(linear.compute_rope_freqs(), None);
}

#[test]
fn apertus_model_is_laid_out() {
    let mut args = parse(APERTUS_8B_CONFIG).unwrap();
    args.num_hidden_layers = 2;
    let (model, steps) = ApertusModel::from_weights(&args);
    assert_eq!(model.num_layers(), 2);
    assert!(!model.tied);
    assert_eq!(steps.get(0).kind, StepKind::Embedding);
    assert_eq!(steps.get(steps.len() - 1).key, "lm_head");
    let attn = &model.layers[0].self_attn;
    let plan = attn.forward(&vec![1, 3, 4096], 9);
    assert_eq!((plan.q_heads, plan.kv_heads, plan.head_dim, plan.width), (32, 8, 128, 4096));
    assert_eq!(plan.rope.unwrap().offset, 9);
    assert_eq!(attn.attend(3, false).kernel, Kernel::Causal { window: 0 });
    assert_eq!(attn.attend(1, false).kernel, Kernel::Masked { window: 0 });
}
