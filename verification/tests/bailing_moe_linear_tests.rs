use mlxcel_models::bailing_moe_linear::{
    alibi_slopes as slope_schedule,
    chunked_prefill_enabled_from, decay_position, default_group_norm_size, default_layer_group_size,
    default_max_position_embeddings, default_model_type, default_n_group, default_norm_topk_prob,
    default_num_experts_per_tok, default_partial_rotary_factor, default_rms_norm_eps, default_rope_theta,
    default_routed_scaling_factor, default_score_function, default_topk_group, default_true, gla_chunked,
    gla_sequential, slope_counts, validate_weights, AttentionKind, BailingLinearCache, BailingMoeLinearModel,
    DecoderLayer, FeedForward, GroupRMSNorm, KvCache, LinearAttentionCache, ModelArgs, Pairing, Quantization, Recurrence, Slope, Snapshot,
    StepRange, TokenIdField, GLA_CHUNK,
};
use mlxcel_models::json::ScalingBlock;
use mlxcel_models::single::Single;
use mlxcel_models::steps::{Action, Build, StepKind, Steps};
use mlxcel_models::weights::{Outcome, PackingAnswers, PackingRequest, WeightMap};
use serde_json::Value;

fn count(v: &Value, key: &str) -> Option<usize> {
    v.get(key).and_then(Value::as_u64).map(|n| n as usize)
}

fn flag(v: &Value, key: &str, default: bool) -> bool {
    v.get(key).and_then(Value::as_bool).unwrap_or(default)
}

fn word(v: &Value, key: &str) -> Option<String> {
    v.get(key).and_then(Value::as_str).map(str::to_string)
}

fn single(x: f32) -> Single {
    Single { bits: x.to_bits(), text: x.to_string() }
}

fn number(v: &Value, key: &str) -> Option<Single> {
    v.get(key).and_then(Value::as_f64).map(|x| single(x as f32))
}

fn value_of(s: &Single) -> f32 {
    f32::from_bits(s.bits)
}

fn scaling(v: &Value) -> Option<ScalingBlock> {
    v.get("rope_scaling").and_then(Value::as_object).map(|m| ScalingBlock {
        members: m.iter().map(|(k, x)| (k.clone(), x.clone())).collect(),
    })
}

fn eos(v: &Value) -> Option<TokenIdField> {
    let field = v.get("eos_token_id")?;
    if let Some(ids) = field.as_array() {
        return Some(TokenIdField::Multiple(ids.iter().map(|i| i.as_i64().unwrap() as i32).collect()));
    }
    field.as_i64().map(|i| TokenIdField::Single(i as i32))
}

fn quant(v: &Value) -> Option<Quantization> {
    v.get("quantization").map(|q| Quantization {
        group_size: q.get("group_size").and_then(Value::as_i64).unwrap() as i32,
        bits: q.get("bits").and_then(Value::as_i64).unwrap() as i32,
    })
}

/// What the tensor engine says of the quantization parameters.
fn engine_params(q: &Option<Quantization>) -> Option<String> {
    let q = q.as_ref()?;
    if q.bits <= 0 || q.bits > 32 {
        return Some(format!("bits {} must be between 1 and 32", q.bits));
    }
    if q.group_size <= 0 {
        return Some(format!("group_size {} must be positive", q.group_size));
    }
    None
}

/// What the tensor engine says of the packing of a quantized tensor.
fn engine_packing(r: &PackingRequest) -> Result<(), String> {
    let cols = *r.scales.last().unwrap();
    if let Some(b) = &r.biases {
        if b != &r.scales {
            return Err(format!("{}: biases and scales must have the same shape", r.prefix));
        }
    }
    if cols * r.group_size != r.in_features as i32 || *r.weight.last().unwrap() * 32 / r.bits != r.in_features as i32 {
        return Err(format!("{}: packed for another input width", r.prefix));
    }
    Ok(())
}

fn check_config(args: &ModelArgs) -> Result<(), String> {
    let refusal = engine_params(&args.quantization);
    args.validate(refusal.as_deref())
}

fn check_weights(weights: &WeightMap, args: &ModelArgs) -> Result<(), String> {
    let mut answers = PackingAnswers::new();
    loop {
        match validate_weights(weights, args, &answers) {
            Outcome::Pass => return Ok(()),
            Outcome::Fail(e) => return Err(e),
            Outcome::Ask(r) => match engine_packing(&r) {
                Ok(()) => answers.accept(r.prefix),
                Err(e) => answers.refuse(r.prefix.clone(), e),
            },
        }
    }
}

fn parse(json: &str) -> Result<ModelArgs, serde_json::Error> {
    let v: Value = serde_json::from_str(json)?;
    Ok(ModelArgs {
        model_type: word(&v, "model_type").unwrap_or_else(default_model_type),
        hidden_size: count(&v, "hidden_size").unwrap(),
        num_hidden_layers: count(&v, "num_hidden_layers").unwrap(),
        num_attention_heads: count(&v, "num_attention_heads").unwrap(),
        intermediate_size: count(&v, "intermediate_size").unwrap(),
        vocab_size: count(&v, "vocab_size").unwrap(),
        num_key_value_heads: count(&v, "num_key_value_heads"),
        head_dim: count(&v, "head_dim"),
        moe_intermediate_size: count(&v, "moe_intermediate_size"),
        num_experts: count(&v, "num_experts"),
        num_shared_experts: count(&v, "num_shared_experts").unwrap_or(0),
        num_experts_per_tok: count(&v, "num_experts_per_tok").unwrap_or_else(default_num_experts_per_tok),
        norm_topk_prob: flag(&v, "norm_topk_prob", default_norm_topk_prob()),
        first_k_dense_replace: count(&v, "first_k_dense_replace").unwrap_or(0),
        layer_group_size: count(&v, "layer_group_size").unwrap_or_else(default_layer_group_size),
        group_norm_size: count(&v, "group_norm_size").unwrap_or_else(default_group_norm_size),
        max_position_embeddings: count(&v, "max_position_embeddings")
            .unwrap_or_else(default_max_position_embeddings),
        rms_norm_eps: number(&v, "rms_norm_eps").unwrap_or_else(default_rms_norm_eps),
        rope_theta: number(&v, "rope_theta").unwrap_or_else(default_rope_theta),
        rope_scaling: scaling(&v),
        rope_traditional: flag(&v, "rope_traditional", false),
        use_bias: flag(&v, "use_bias", false),
        use_qkv_bias: flag(&v, "use_qkv_bias", false),
        norm_head: flag(&v, "norm_head", false),
        norm_softmax: flag(&v, "norm_softmax", false),
        use_qk_norm: flag(&v, "use_qk_norm", false),
        use_rmsnorm: flag(&v, "use_rmsnorm", default_true()),
        tie_word_embeddings: flag(&v, "tie_word_embeddings", false),
        partial_rotary_factor: number(&v, "partial_rotary_factor").unwrap_or_else(default_partial_rotary_factor),
        moe_router_enable_expert_bias: flag(&v, "moe_router_enable_expert_bias", false),
        moe_router_enable_routed_scaling: flag(&v, "moe_router_enable_routed_scaling", default_true()),
        routed_scaling_factor: number(&v, "routed_scaling_factor").unwrap_or_else(default_routed_scaling_factor),
        score_function: word(&v, "score_function").unwrap_or_else(default_score_function),
        n_group: count(&v, "n_group").unwrap_or_else(default_n_group),
        topk_group: count(&v, "topk_group").unwrap_or_else(default_topk_group),
        moe_shared_expert_intermediate_size: count(&v, "moe_shared_expert_intermediate_size"),
        moe_router_enable_shared_expert: flag(&v, "moe_router_enable_shared_expert", default_true()),
        eos_token_id: eos(&v),
        quantization: quant(&v),
    })
}

const RING_MINI_CONFIG: &str = r#"{
    "architectures": ["BailingMoeLinearV2ForCausalLM"],
    "attention_dropout": 0.0,
    "auto_map": {
        "AutoConfig": "configuration_bailing_moe_linear_v2.BailingMoeLinearV2Config"
    },
    "embedding_dropout": 0.0,
    "eos_token_id": 156892,
    "first_k_dense_replace": 1,
    "group_norm_size": 4,
    "head_dim": 128,
    "hidden_act": "silu",
    "hidden_size": 2048,
    "intermediate_size": 5120,
    "layer_group_size": 5,
    "linear_silu": false,
    "max_position_embeddings": 131072,
    "model_type": "bailing_moe_linear",
    "moe_intermediate_size": 512,
    "moe_router_enable_expert_bias": true,
    "moe_shared_expert_intermediate_size": 512,
    "n_group": 8,
    "norm_topk_prob": true,
    "num_attention_heads": 16,
    "num_experts": 256,
    "num_experts_per_tok": 8,
    "num_hidden_layers": 20,
    "num_key_value_heads": 4,
    "num_nextn_predict_layers": 0,
    "num_shared_experts": 1,
    "output_dropout": 0.0,
    "pad_token_id": 156892,
    "partial_rotary_factor": 0.5,
    "quantization": {
        "group_size": 64,
        "bits": 4,
        "mode": "affine",
        "model.layers.1.mlp.gate.gate_proj": {"group_size": 64, "bits": 8},
        "model.layers.2.mlp.gate.gate_proj": {"group_size": 64, "bits": 8},
        "model.layers.3.mlp.gate.gate_proj": {"group_size": 64, "bits": 8}
    },
    "quantization_config": {
        "group_size": 64,
        "bits": 4,
        "mode": "affine",
        "model.layers.1.mlp.gate.gate_proj": {"group_size": 64, "bits": 8}
    },
    "rms_norm_eps": 1e-06,
    "rope_scaling": null,
    "rope_theta": 1000000,
    "routed_scaling_factor": 2.5,
    "router_dtype": "fp32",
    "score_function": "sigmoid",
    "tie_word_embeddings": false,
    "topk_group": 4,
    "torch_dtype": "bfloat16",
    "transformers_version": "4.56.1",
    "use_bias": false,
    "use_cache": true,
    "use_qk_norm": true,
    "use_qkv_bias": false,
    "use_rmsnorm": true,
    "vocab_size": 157184
}"#;

fn ring_mini_args() -> ModelArgs {
    parse(RING_MINI_CONFIG).expect("Ring-mini config parses")
}

fn lazy(shape: &[i32]) -> Vec<i32> {
    shape.to_vec()
}

fn synthetic_weights(args: &ModelArgs) -> WeightMap {
    let hidden = args.hidden_size as i32;
    let mut weights = WeightMap::new();
    weights.insert(
        "model.word_embeddings.weight".into(),
        lazy(&[args.vocab_size as i32, hidden]),
    );
    weights.insert("model.norm.weight".into(), lazy(&[hidden]));
    weights.insert(
        "lm_head.weight".into(),
        lazy(&[args.vocab_size as i32, hidden]),
    );
    for layer in 0..args.num_hidden_layers {
        let prefix = format!("model.layers.{layer}");
        let attention = format!("{prefix}.attention");
        let is_global = args.is_global_layer(layer);
        let (qkv, head_dim, width) = if is_global {
            (
                args.attention_qkv_out_features() as i32,
                args.head_dim() as i32,
                (args.num_attention_heads * args.head_dim()) as i32,
            )
        } else {
            (
                args.linear_qkv_out_features() as i32,
                args.linear_head_dim() as i32,
                (args.num_attention_heads * args.linear_head_dim()) as i32,
            )
        };
        weights.insert(
            format!("{attention}.query_key_value.weight"),
            lazy(&[qkv, hidden]),
        );
        weights.insert(format!("{attention}.dense.weight"), lazy(&[hidden, width]));
        weights.insert(
            format!("{attention}.query_layernorm.weight"),
            lazy(&[head_dim]),
        );
        weights.insert(
            format!("{attention}.key_layernorm.weight"),
            lazy(&[head_dim]),
        );
        if !is_global {
            weights.insert(format!("{attention}.g_proj.weight"), lazy(&[width, hidden]));
            weights.insert(format!("{attention}.g_norm.weight"), lazy(&[width]));
        }
        weights.insert(format!("{prefix}.input_layernorm.weight"), lazy(&[hidden]));
        weights.insert(
            format!("{prefix}.post_attention_layernorm.weight"),
            lazy(&[hidden]),
        );
        let mlp = format!("{prefix}.mlp");
        if args.is_moe_layer(layer) {
            let experts = args.num_experts() as i32;
            let moe = args.moe_intermediate_size() as i32;
            weights.insert(
                format!("{mlp}.gate.gate_proj.weight"),
                lazy(&[experts, hidden]),
            );
            weights.insert(format!("{mlp}.gate.expert_bias"), lazy(&[experts]));
            weights.insert(
                format!("{mlp}.switch_mlp.gate_proj.weight"),
                lazy(&[experts, moe, hidden]),
            );
            weights.insert(
                format!("{mlp}.switch_mlp.up_proj.weight"),
                lazy(&[experts, moe, hidden]),
            );
            weights.insert(
                format!("{mlp}.switch_mlp.down_proj.weight"),
                lazy(&[experts, hidden, moe]),
            );
            let shared = args.shared_expert_intermediate_size() as i32;
            weights.insert(
                format!("{mlp}.shared_experts.gate_proj.weight"),
                lazy(&[shared, hidden]),
            );
            weights.insert(
                format!("{mlp}.shared_experts.up_proj.weight"),
                lazy(&[shared, hidden]),
            );
            weights.insert(
                format!("{mlp}.shared_experts.down_proj.weight"),
                lazy(&[hidden, shared]),
            );
        } else {
            let inter = args.intermediate_size as i32;
            weights.insert(format!("{mlp}.gate_proj.weight"), lazy(&[inter, hidden]));
            weights.insert(format!("{mlp}.up_proj.weight"), lazy(&[inter, hidden]));
            weights.insert(format!("{mlp}.down_proj.weight"), lazy(&[hidden, inter]));
        }
    }
    weights
}

fn small_args() -> ModelArgs {
    let mut args = ring_mini_args();
    args.hidden_size = 32;
    args.num_hidden_layers = 6;
    args.num_attention_heads = 4;
    args.num_key_value_heads = Some(2);
    args.head_dim = Some(8);
    args.layer_group_size = 3;
    args.group_norm_size = 4;
    args.intermediate_size = 16;
    args.moe_intermediate_size = Some(8);
    args.moe_shared_expert_intermediate_size = Some(8);
    args.num_experts = Some(4);
    args.num_experts_per_tok = 2;
    args.n_group = 2;
    args.topk_group = 1;
    args.vocab_size = 64;
    args.quantization = Some(Quantization {
        group_size: 64,
        bits: 4,
    });
    args
}

#[test]
fn bailing_moe_linear_tests_the_real_config_parses_and_validates() {
    let args = ring_mini_args();
    assert_eq!(args.model_type, "bailing_moe_linear");
    assert_eq!(args.hidden_size, 2048);
    assert_eq!(args.num_hidden_layers, 20);
    assert_eq!(args.num_attention_heads, 16);
    assert_eq!(args.num_key_value_heads, Some(4));
    assert_eq!(args.head_dim, Some(128));
    assert_eq!(args.layer_group_size, 5);
    assert_eq!(args.group_norm_size, 4);
    assert_eq!(args.first_k_dense_replace, 1);
    assert_eq!(args.num_experts, Some(256));
    assert_eq!(args.num_experts_per_tok, 8);
    assert_eq!(args.num_shared_experts, 1);
    assert_eq!(args.moe_shared_expert_intermediate_size, Some(512));
    assert_eq!(args.n_group, 8);
    assert_eq!(args.topk_group, 4);
    assert_eq!(args.score_function, "sigmoid");
    assert!(args.moe_router_enable_expert_bias);
    assert!(args.use_qk_norm);
    assert!(!args.tie_word_embeddings);
    assert_eq!(value_of(&args.routed_scaling_factor), 2.5);
    assert_eq!(value_of(&args.partial_rotary_factor), 0.5);
    assert_eq!(args.eos_token_ids(), vec![156892]);
    assert_eq!(args.group_size(), 64);
    assert_eq!(args.bits(), 4);
    check_config(&args).expect("the shipped config is accepted");
}

#[test]
fn a_list_valued_eos_token_id_parses() {
    let args: ModelArgs = parse(
        r#"{"hidden_size": 8, "num_hidden_layers": 1, "num_attention_heads": 2,
            "intermediate_size": 8, "vocab_size": 16, "eos_token_id": [1, 2, 3]}"#,
    )
    .expect("a list eos_token_id parses");
    assert!(matches!(args.eos_token_id, Some(TokenIdField::Multiple(_))));
    assert_eq!(args.eos_token_ids(), vec![1, 2, 3]);
}

#[test]
fn the_layer_schedule_makes_every_fifth_layer_global() {
    let args = ring_mini_args();
    let global: Vec<usize> = (0..args.num_hidden_layers)
        .filter(|&i| args.is_global_layer(i))
        .collect();
    assert_eq!(global, vec![4, 9, 14, 19]);
    assert_eq!(
        (0..args.num_hidden_layers)
            .filter(|&i| !args.is_global_layer(i))
            .count(),
        16
    );
    assert_eq!(args.global_layer_index(), Some(4));
}

#[test]
fn the_tail_clause_makes_the_leftover_layers_global() {
    let mut args = ring_mini_args();
    args.num_hidden_layers = 22;
    let global: Vec<usize> = (0..22).filter(|&i| args.is_global_layer(i)).collect();
    assert_eq!(global, vec![4, 9, 14, 19, 20, 21]);
}

#[test]
fn a_stack_shorter_than_one_group_still_finds_a_global_layer() {
    let mut args = ring_mini_args();
    args.num_hidden_layers = 3;
    assert!((0..3).all(|i| args.is_global_layer(i)));
    assert_eq!(args.global_layer_index(), Some(0));
}

#[test]
fn the_linear_and_global_layers_have_different_qkv_widths() {
    let args = ring_mini_args();
    assert_eq!(args.attention_qkv_out_features(), 3072);
    assert_eq!(args.linear_qkv_out_features(), 6144);
    assert_eq!(args.head_dim(), 128);
    assert_eq!(args.linear_head_dim(), 128);
    assert_eq!(args.rope_dims(), 64);
    assert_eq!(args.linear_rope_dims(), 64);
}

#[test]
fn an_explicit_head_dim_does_not_reach_the_linear_layers() {
    let mut args = ring_mini_args();
    args.head_dim = Some(64);
    assert_eq!(args.head_dim(), 64);
    assert_eq!(args.linear_head_dim(), 128);
    assert_eq!(args.attention_qkv_out_features(), (16 + 8) * 64);
    assert_eq!(args.linear_qkv_out_features(), 3 * 16 * 128);
}

#[test]
fn a_group_norm_size_that_does_not_divide_the_width_is_rejected() {
    let mut args = ring_mini_args();
    args.group_norm_size = 3; // 2048 / 3 is not an integer
    let err = check_config(&args).expect_err("3 does not divide 2048");
    assert!(err.contains("group_norm_size"), "{err}");
}

#[test]
fn a_zero_layer_group_size_is_rejected() {
    let mut args = ring_mini_args();
    args.layer_group_size = 0;
    let err = check_config(&args)
        .expect_err("0 is the modulus and would divide by zero");
    assert!(err.contains("layer_group_size"), "{err}");
}

#[test]
fn the_dead_vendor_flags_are_rejected_rather_than_ignored() {
    let mut args = ring_mini_args();
    args.norm_softmax = true;
    let err = check_config(&args).expect_err("norm_softmax is dead upstream");
    assert!(err.contains("norm_softmax"), "{err}");
    let mut args = ring_mini_args();
    args.use_rmsnorm = false;
    let err = check_config(&args).expect_err("use_rmsnorm is dead upstream");
    assert!(err.contains("use_rmsnorm"), "{err}");
}

#[test]
fn a_rope_width_that_mlx_would_throw_on_is_rejected_on_either_head() {
    let mut args = ring_mini_args();
    args.partial_rotary_factor = single(0.0);
    let err = check_config(&args)
        .expect_err("a zero rotary width is rejected");
    assert!(err.contains("rotary width"), "{err}");
    let mut args = ring_mini_args();
    args.partial_rotary_factor = single(2.0);
    let err = check_config(&args)
        .expect_err("a rotary width wider than the head is rejected");
    assert!(err.contains("rotary width"), "{err}");
    let mut args = ring_mini_args();
    args.partial_rotary_factor = single(f32::NAN);
    let err = check_config(&args)
        .expect_err("a NaN partial_rotary_factor is rejected");
    assert!(err.contains("partial_rotary_factor"), "{err}");
    let mut args = ring_mini_args();
    args.hidden_size = 96;
    args.num_attention_heads = 16;
    args.num_key_value_heads = Some(4);
    args.head_dim = Some(128);
    args.group_norm_size = 1;
    args.partial_rotary_factor = single(0.5);
    let err = check_config(&args)
        .expect_err("an odd linear rotary width is rejected");
    assert!(err.contains("linear-attention"), "{err}");
    assert!(err.contains("odd"), "{err}");
}

#[test]
fn bailing_moe_linear_tests_a_non_default_rope_scaling_block_is_rejected() {
    let args: ModelArgs = parse(
        r#"{"hidden_size": 8, "num_hidden_layers": 1, "num_attention_heads": 2,
            "intermediate_size": 8, "vocab_size": 16,
            "rope_scaling": {"rope_type": "linear", "factor": 4.0}}"#,
    )
    .expect("the config parses");
    let err = check_config(&args)
        .expect_err("a scaled rope block is rejected");
    assert!(err.contains("rope_scaling"), "{err}");
    let args: ModelArgs = parse(
        r#"{"hidden_size": 8, "num_hidden_layers": 1, "num_attention_heads": 2,
            "intermediate_size": 8, "vocab_size": 16,
            "rope_scaling": {"rope_type": "default"}}"#,
    )
    .expect("the config parses");
    check_config(&args).expect("a default block is a no-op");
}

#[test]
fn the_grouped_routing_guards_fire_on_a_config_this_family_actually_reaches() {
    let mut args = ring_mini_args();
    args.topk_group = 8;
    let err = check_config(&args)
        .expect_err("topk_group == n_group puts argpartition out of range");
    assert!(err.contains("topk_group"), "{err}");
    let mut args = ring_mini_args();
    args.num_experts = Some(255); // not divisible by n_group 8
    let err = check_config(&args)
        .expect_err("an indivisible expert count cannot be regrouped");
    assert!(err.contains("n_group"), "{err}");
    let mut args = ring_mini_args();
    args.n_group = 256; // one expert per group
    args.topk_group = 4;
    let err = check_config(&args)
        .expect_err("a group of one cannot be scored by its top two");
    assert!(err.contains("per group"), "{err}");
}

#[test]
fn an_indivisible_hidden_size_is_rejected_even_with_an_explicit_head_dim() {
    let mut args = ring_mini_args();
    args.hidden_size = 2049;
    args.head_dim = Some(128);
    args.group_norm_size = 1;
    let err = check_config(&args)
        .expect_err("2049 is not divisible by 16 heads");
    assert!(err.contains("divisible by num_attention_heads"), "{err}");
}

#[test]
fn bailing_moe_linear_tests_a_zero_scalar_is_rejected_before_it_divides() {
    for mutate in [
        (|a: &mut ModelArgs| a.num_attention_heads = 0) as fn(&mut ModelArgs),
        |a: &mut ModelArgs| a.hidden_size = 0,
        |a: &mut ModelArgs| a.num_hidden_layers = 0,
        |a: &mut ModelArgs| a.intermediate_size = 0,
        |a: &mut ModelArgs| a.vocab_size = 0,
        |a: &mut ModelArgs| a.max_position_embeddings = 0,
        |a: &mut ModelArgs| a.rms_norm_eps = single(0.0),
        |a: &mut ModelArgs| a.rope_theta = single(0.0),
    ] {
        let mut args = ring_mini_args();
        mutate(&mut args);
        assert!(
            check_config(&args).is_err(),
            "a zero scalar must be rejected at load"
        );
    }
}

#[test]
fn bailing_moe_linear_tests_a_well_formed_checkpoint_passes_validation() {
    let args = small_args();
    check_config(&args).expect("the shrunk config is valid");
    let weights = synthetic_weights(&args);
    check_weights(&weights, &args).expect("the synthetic export validates");
}

#[test]
fn a_linear_layer_carrying_a_global_layers_qkv_width_is_rejected() {
    let args = small_args();
    let mut weights = synthetic_weights(&args);
    assert!(!args.is_global_layer(0));
    weights.insert(
        "model.layers.0.attention.query_key_value.weight".into(),
        lazy(&[
            args.attention_qkv_out_features() as i32,
            args.hidden_size as i32,
        ]),
    );
    let err = check_weights(&weights, &args).expect_err("the narrow QKV is rejected");
    assert!(err.contains("query_key_value"), "{err}");
    assert!(
        err.contains(&args.linear_qkv_out_features().to_string()),
        "the message must name the width the linear layer needs: {err}"
    );
}

#[test]
fn a_missing_linear_gate_is_rejected() {
    let args = small_args();
    let mut weights = synthetic_weights(&args);
    weights.remove("model.layers.0.attention.g_proj.weight");
    let err = check_weights(&weights, &args).expect_err("g_proj is required on a linear layer");
    assert!(err.contains("g_proj"), "{err}");
    let mut weights = synthetic_weights(&args);
    weights.remove("model.layers.0.attention.g_norm.weight");
    let err = check_weights(&weights, &args).expect_err("g_norm is required on a linear layer");
    assert!(err.contains("g_norm"), "{err}");
}

#[test]
fn bailing_moe_linear_tests_a_short_expert_stack_is_rejected() {
    let args = small_args();
    let mut weights = synthetic_weights(&args);
    weights.insert(
        "model.layers.1.mlp.switch_mlp.gate_proj.weight".into(),
        lazy(&[
            args.num_experts() as i32 - 1,
            args.moe_intermediate_size() as i32,
            args.hidden_size as i32,
        ]),
    );
    let err = check_weights(&weights, &args).expect_err("a short stack is rejected");
    assert!(err.contains("num_experts"), "{err}");
}

#[test]
fn bailing_moe_linear_tests_a_dense_prefix_layer_is_validated_as_a_plain_mlp() {
    let args = small_args();
    let weights = synthetic_weights(&args);
    assert!(!args.is_moe_layer(0));
    assert!(weights.contains_key("model.layers.0.mlp.gate_proj.weight"));
    assert!(!weights.contains_key("model.layers.0.mlp.gate.gate_proj.weight"));
    check_weights(&weights, &args).expect("the dense prefix validates");
}

#[test]
fn chunked_prefill_is_on_unless_explicitly_switched_off() {
    assert!(chunked_prefill_enabled_from(None));
    for on in ["1", "true", "TRUE", "yes", "on", "anything else"] {
        assert!(
            chunked_prefill_enabled_from(Some(on)),
            "{on:?} should keep the chunked default"
        );
    }
    for off in ["0", "false", "FALSE", "off", "no", "  no  "] {
        assert!(
            !chunked_prefill_enabled_from(Some(off)),
            "{off:?} should select the sequential recurrence"
        );
    }
}

fn build(weights: &WeightMap, args: &ModelArgs) -> (BailingMoeLinearModel, Steps) {
    match BailingMoeLinearModel::from_weights(weights, args, &PackingAnswers::new(), None, true) {
        Build::Ready(model, steps) => (model, steps),
        Build::Refused(e) => panic!("{e}"),
        Build::Ask(r) => panic!("{}", r.prefix),
    }
}

#[test]
fn group_rms_norm_rejects_an_indivisible_width() {
    let err = match GroupRMSNorm::new(&vec![6], 4, &single(1e-6)) {
        Ok(_) => panic!("6 channels do not split into 4 groups"),
        Err(err) => err,
    };
    assert!(err.contains("divisible"), "{err}");
    let err = GroupRMSNorm::new(&vec![2, 3], 1, &single(1e-6)).unwrap_err();
    assert_eq!(err, "GroupRMSNorm weight shape [2, 3]: expected a 1-D vector");
    assert!(GroupRMSNorm::new(&vec![6], 0, &single(1e-6)).is_err());
    let norm = GroupRMSNorm::new(&vec![8], 4, &single(1e-6)).unwrap();
    assert_eq!(norm.per_group, 2);
    assert_eq!(norm.forward(&vec![1, 5, 8]), vec![1, 5, 4, 2]);
}

#[test]
fn the_cache_flavour_follows_the_layer_schedule() {
    let args = small_args();
    let (model, _) = build(&synthetic_weights(&args), &args);
    let caches: Vec<BailingLinearCache<u64>> = model.make_internal_caches();
    assert_eq!(caches.len(), args.num_hidden_layers);
    for (idx, cache) in caches.iter().enumerate() {
        let is_attention = matches!(cache, BailingLinearCache::Attention(_));
        assert_eq!(
            is_attention,
            args.is_global_layer(idx),
            "layer {idx} got the wrong cache flavour"
        );
        assert!(model.layers[idx].forward(cache) != Pairing::Mismatch);
    }
}

#[test]
fn a_fresh_linear_cache_holds_no_state() {
    let cache: LinearAttentionCache<u64> = LinearAttentionCache::new();
    assert!(cache.state.is_none());
    assert_eq!(cache.offset, 0);
}

#[test]
fn ling_model_is_laid_out() {
    let args = small_args();
    let (model, steps) = build(&synthetic_weights(&args), &args);
    assert_eq!(model.num_layers(), args.num_hidden_layers);
    assert_eq!(model.global_layer_index, Some(2));
    assert_eq!(steps.get(1).key, "model.layers.0.attention.query_key_value");
    assert_eq!(steps.get(3).key, "model.layers.0.attention.g_proj");
    assert_eq!(steps.get(4).kind, StepKind::Tensor);
    let linear = match &model.layers[0].attention {
        AttentionKind::Linear(a) => a,
        AttentionKind::Full(_) => panic!("layer 0 is linear"),
    };
    let (cut, heads, recurrence) = linear.forward(&vec![1, 7, 32], 2);
    assert_eq!((cut.q_end, cut.k_end, cut.v_end), (32, 64, 96));
    assert_eq!(heads.rope.unwrap().dims, 4);
    assert_eq!(recurrence, Recurrence::Chunked { chunk: GLA_CHUNK });
    assert_eq!(linear.forward(&vec![1, 1, 32], 2).2, Recurrence::Sequential);
    assert_eq!(linear.decay_position, (0, 5));
    assert!(matches!(model.layers[2].attention, AttentionKind::Full(_)));
}

#[test]
fn ling_position_comes_from_the_global_cache() {
    let args = small_args();
    let (model, _) = build(&synthetic_weights(&args), &args);
    let mut caches: Vec<BailingLinearCache<u64>> = model.make_internal_caches();
    assert_eq!(model.forward(&caches), 0);
    caches[2] = BailingLinearCache::Attention(KvCache { keys: Some(1), values: Some(2), offset: 9 });
    caches[0] = BailingLinearCache::Linear(LinearAttentionCache { state: None, offset: 4 });
    assert_eq!(model.forward(&caches), 9);
    assert_eq!(model.prefill_mask(3, &caches), Some(9));
    assert_eq!(model.prefill_mask(1, &caches), None);
    caches.truncate(1);
    assert_eq!(model.forward(&caches), 4);
    assert_eq!(model.prefill_mask(3, &caches), Some(0));
    let none: Vec<BailingLinearCache<u64>> = Vec::new();
    assert_eq!(model.forward(&none), 0);
}

#[test]
fn ling_snapshot_comes_back() {
    let args = small_args();
    let (model, _) = build(&synthetic_weights(&args), &args);
    let mut caches: Vec<BailingLinearCache<u64>> = model.make_internal_caches();
    caches[0] = BailingLinearCache::Linear(LinearAttentionCache { state: Some(10), offset: 5 });
    caches[2] = BailingLinearCache::Attention(KvCache { keys: Some(20), values: Some(21), offset: 5 });
    let snapshot = model.snapshot_sequence_state(&caches, 5);
    assert_eq!(snapshot.family(), "bailing_moe_linear");
    assert_eq!(snapshot.restore_optional("layer0.linear.state"), Some(10));
    assert_eq!(snapshot.restore_optional("layer1.linear.state"), None);
    let back = model.restore_sequence_state(&snapshot).unwrap();
    match (&back[0], &back[2], &back[1]) {
        (BailingLinearCache::Linear(a), BailingLinearCache::Attention(b), BailingLinearCache::Linear(c)) => {
            assert_eq!((a.state, a.offset), (Some(10), 5));
            assert_eq!((b.keys, b.values, b.offset), (Some(20), Some(21), 5));
            assert_eq!((c.state, c.offset), (None, 5));
        }
        _ => panic!("flavours changed"),
    }
    let other: Snapshot<u64> = Snapshot::new("afmoe", 5);
    assert_eq!(
        model.restore_sequence_state(&other).unwrap_err(),
        "cannot restore afmoe snapshot into bailing_moe_linear"
    );
}

#[test]
fn ling_chunks_cover_the_prompt() {
    let chunks = gla_chunked(130, 64, false);
    let spans: Vec<(i32, i32, bool)> = chunks.iter().map(|c| (c.start, c.len, c.carry)).collect();
    assert_eq!(spans, vec![(0, 64, false), (64, 64, true), (128, 2, true)]);
    assert!(gla_chunked(3, 64, true)[0].carry);
    assert_eq!(gla_sequential(3), vec![(0, 1), (1, 2), (2, 3)]);
    let tail = chunks[2].tail_steps();
    assert_eq!((tail.first, tail.stop, tail.step), (1, -1, -1));
    let carry = chunks[2].carry_steps();
    assert_eq!((carry.first, carry.stop, carry.step), (1, 3, 1));
    let pos = chunks[2].positions();
    assert_eq!((pos.first, pos.stop, pos.step), (0, 2, 1));
}

#[test]
fn ling_chunked_decay_equals_the_recurrence() {
    // One head of width one: the recurrence is s = s * e + k * v, out = q * s.
    let total = 150;
    let decay = 0.97f64;
    let value = |t: i32| 0.5 + (t % 7) as f64;
    let mut state = 0.0;
    let mut expected = Vec::new();
    for (t, _) in gla_sequential(total) {
        state = state * decay + value(t);
        expected.push(state);
    }
    let mut carried = 0.0;
    let mut got = Vec::new();
    for c in gla_chunked(total, GLA_CHUNK, false) {
        for i in 0..c.len {
            let own: f64 = (0..=i).map(|j| decay.powi(i - j) * value(c.start + j)).sum();
            let steps = c.carry_steps();
            let old = if c.carry { carried * decay.powi(steps.first + i * steps.step) } else { 0.0 };
            got.push(own + old);
        }
        let tail = c.tail_steps();
        let update: f64 = (0..c.len).map(|j| decay.powi(tail.first + j * tail.step) * value(c.start + j)).sum();
        carried = if c.carry { carried * decay.powi(c.len) + update } else { update };
    }
    for (a, b) in got.iter().zip(&expected) {
        assert!((a - b).abs() < 1e-9, "{a} vs {b}");
    }
    assert!((carried - state).abs() < 1e-9);
}

#[test]
fn ling_slope_counts_split_at_a_power_of_two() {
    assert_eq!(slope_counts(0), (0, 0));
    assert_eq!(slope_counts(1), (1, 0));
    assert_eq!(slope_counts(12), (8, 4));
    assert_eq!(slope_counts(16), (16, 0));
    assert_eq!(decay_position(0, 20), (0, 19));
    assert_eq!(decay_position(1, 20), (0, 19));
    assert_eq!(decay_position(19, 20), (18, 19));
    assert_eq!(decay_position(0, 1), (0, 1));
}

#[test]
fn ling_passing_checkpoint_serves_every_step() {
    let args = small_args();
    let weights = synthetic_weights(&args);
    assert!(check_weights(&weights, &args).is_ok());
    let (_, steps) = build(&weights, &args);
    for i in 0..steps.len() {
        let step = steps.get(i);
        assert!(!matches!(step.action(&weights), Action::Fail(_)), "{}", step.key);
        if step.kind == StepKind::Linear {
            assert!(weights.contains_key(&format!("{}.weight", step.key)), "{}", step.key);
        }
    }
}

#[test]
fn ling_output_norm_is_as_wide_as_its_block() {
    let args = small_args();
    let (model, _) = build(&synthetic_weights(&args), &args);
    for layer in &model.layers {
        if let AttentionKind::Linear(a) = &layer.attention {
            assert_eq!(a.g_norm.width, a.num_heads * a.head_dim);
            assert_eq!((a.g_norm.groups, a.g_norm.per_group), (4, 8));
            assert!(a.chunked_prefill);
        }
    }
}

/// The slopes that the schedule names: member `i` of the series over `n` heads is
/// `2^(-(2^-(log2(n) - 3)) * (i + 1))`.
fn alibi_slopes(n: usize) -> Vec<f32> {
    slope_schedule(n)
        .into_iter()
        .map(|s| {
            let ratio = 2f64.powf(-(2f64.powf(-((s.series as f64).log2() - 3.0))));
            ratio.powi(s.index as i32 + 1) as f32
        })
        .collect()
}

fn layer_decay(num_heads: usize, layer_idx: usize, num_hidden_layers: usize) -> Vec<f32> {
    let (position, denominator) = decay_position(layer_idx, num_hidden_layers);
    let factor = 1.0 - (position as f64 / denominator as f64) + 1e-5;
    alibi_slopes(num_heads).into_iter().map(|s| (-(s as f64) * factor) as f32).collect()
}

#[test]
fn the_alibi_slopes_match_the_upstream_formula_for_a_power_of_two() {
    let slopes = alibi_slopes(16);
    assert_eq!(slopes.len(), 16);
    let ratio = 2f64.powf(-0.5);
    for (i, slope) in slopes.iter().enumerate() {
        let expected = ratio.powi(i as i32 + 1) as f32;
        assert!(
            (slope - expected).abs() < 1e-6,
            "slope[{i}] = {slope}, expected {expected}"
        );
    }
    for pair in slopes.windows(2) {
        assert!(pair[1] < pair[0]);
    }
    assert!(slopes[0] > 0.0 && slopes[0] <= 1.0);
}

#[test]
fn the_alibi_slopes_fall_back_for_a_non_power_of_two_head_count() {
    let slopes = alibi_slopes(12);
    assert_eq!(slopes.len(), 12);
    let base = alibi_slopes(8);
    assert_eq!(&slopes[..8], &base[..]);
    let doubled = alibi_slopes(16);
    for (k, slope) in slopes[8..].iter().enumerate() {
        assert!((slope - doubled[2 * k]).abs() < 1e-6);
    }
}

#[test]
fn the_layer_decay_is_negative_and_shrinks_with_depth() {
    let heads = 16;
    let layers = 20;
    let slopes = alibi_slopes(heads);
    let g0 = layer_decay(heads, 0, layers);
    let g1 = layer_decay(heads, 1, layers);
    assert_eq!(g0, g1);
    for (i, g) in g0.iter().enumerate() {
        let expected = (-(slopes[i] as f64) * (1.0 + 1e-5)) as f32;
        assert!((g - expected).abs() < 1e-6, "g[{i}] = {g}");
    }
    let g_last = layer_decay(heads, layers - 1, layers);
    let last_factor = 1.0 - ((layers - 2) as f64 / (layers - 1) as f64) + 1e-5;
    for (i, g) in g_last.iter().enumerate() {
        let expected = (-(slopes[i] as f64) * last_factor) as f32;
        assert!((g - expected).abs() < 1e-7, "g[{i}] = {g}");
    }
    for layer in 1..layers {
        let prev = layer_decay(heads, layer - 1, layers)[0];
        let cur = layer_decay(heads, layer, layers)[0];
        assert!(
            cur >= prev,
            "decay must weaken with depth: layer {layer} gave {cur} after {prev}"
        );
    }
    for layer in 0..layers {
        for g in layer_decay(heads, layer, layers) {
            assert!(g < 0.0, "layer {layer} produced a non-negative decay {g}");
        }
    }
}

#[test]
fn ling_slope_schedule_names_each_head() {
    assert!(slope_schedule(0).is_empty());
    assert_eq!(slope_schedule(1), vec![Slope { series: 1, index: 0 }]);
    assert_eq!(
        slope_schedule(3),
        vec![Slope { series: 2, index: 0 }, Slope { series: 2, index: 1 }, Slope { series: 4, index: 0 }]
    );
    let schedule = slope_schedule(7);
    assert_eq!(schedule[3], Slope { series: 4, index: 3 });
    assert_eq!(schedule[6], Slope { series: 8, index: 4 });
}

#[test]
fn ling_layer_reads_the_router_where_it_is_stored() {
    let args = small_args();
    let mut weights = synthetic_weights(&args);
    let router = |weights: &WeightMap| match &build(weights, &args).0.layers[2].mlp {
        FeedForward::Sparse(b) => b.gate.gate_proj.clone(),
        FeedForward::Dense(_) => panic!("layer 2 is sparse"),
    };
    assert_eq!(router(&weights), "model.layers.2.mlp.gate.gate_proj");
    let shape = weights.get("model.layers.2.mlp.gate.gate_proj.weight").unwrap().clone();
    weights.remove("model.layers.2.mlp.gate.gate_proj.weight");
    weights.insert("model.layers.2.mlp.gate.weight".into(), shape);
    assert_eq!(router(&weights), "model.layers.2.mlp.gate");
}

#[test]
fn ling_bad_output_norm_comes_behind_the_projections() {
    let args = small_args();
    let mut weights = WeightMap::new();
    let keys = |weights: &WeightMap| {
        let mut steps = Steps::new();
        let err = DecoderLayer::from_weights(weights, &args, 1, true, &mut steps).unwrap_err();
        ((0..steps.len()).map(|i| steps.get(i).key.clone()).collect::<Vec<String>>(), err)
    };
    let a = "model.layers.1.attention";
    let projections = vec![format!("{a}.query_key_value"), format!("{a}.dense"), format!("{a}.g_proj")];
    let (begun, err) = keys(&weights);
    assert_eq!(begun, projections);
    assert_eq!(err, format!("Weight not found: {a}.g_norm.weight"));
    weights.insert(format!("{a}.g_norm.weight"), vec![30]);
    let (begun, err) = keys(&weights);
    assert_eq!(begun, projections);
    assert_eq!(err, "GroupRMSNorm width 30 is not divisible by groups 4");
    weights.insert(format!("{a}.g_norm.weight"), vec![32]);
    let (begun, err) = keys(&weights);
    assert_eq!(begun[3], format!("{a}.g_norm.weight"));
    assert!(begun.iter().all(|key| key.starts_with(a)));
    assert!(err.contains("router weight not found"), "{err}");
}

/// Steps by which each term of a state has decayed.
fn faded(h: &[i32], steps: i32) -> Vec<i32> {
    h.iter().map(|d| d + steps).collect()
}

fn recur(h: &[i32], tokens: i32) -> Vec<Vec<i32>> {
    let mut state = h.to_vec();
    let mut read = Vec::new();
    for (first, stop) in gla_sequential(tokens) {
        assert_eq!(stop, first + 1);
        state = faded(&state, 1);
        state.push(0);
        read.push(state.clone());
    }
    read
}

#[test]
fn ling_chunked_prefill_reads_what_the_recurrence_reads() {
    for h in [vec![], vec![0], vec![4, 2]] {
        for (total, chunk) in [(1, 1), (5, 1), (5, 2), (6, 3), (7, 64), (9, 4)] {
            let expected = recur(&h, total);
            let mut state = h.clone();
            let mut read = Vec::new();
            for c in gla_chunked(total, chunk, !h.is_empty()) {
                let (own, carry, tail) = (c.positions(), c.carry_steps(), c.tail_steps());
                let at = |r: &StepRange, k: i32| r.first + k * r.step;
                for q in 0..c.len {
                    let mut terms = if c.carry { faded(&state, at(&carry, q)) } else { Vec::new() };
                    terms.extend((0..=q).map(|j| at(&own, q) - at(&own, j)));
                    read.push(terms);
                }
                state = faded(&state, c.len);
                state.extend((0..c.len).map(|k| at(&tail, k)));
            }
            assert_eq!(read, expected);
            assert_eq!(&state, expected.last().unwrap());
        }
    }
}

#[test]
fn ling_recurrence_is_cut_and_resumed() {
    let whole = gla_sequential(7);
    for cut in 0..=7 {
        let mut parts = gla_sequential(cut);
        parts.extend(gla_sequential(7 - cut).into_iter().map(|(a, b)| (a + cut, b + cut)));
        assert_eq!(parts, whole);
        if 0 < cut && cut < 7 {
            let first = recur(&[3], cut);
            let second = recur(first.last().unwrap(), 7 - cut);
            assert_eq!([first, second].concat(), recur(&[3], 7));
        }
    }
}

#[test]
fn ling_decay_position_moves_with_depth() {
    for layers in [2, 3, 20] {
        for layer in 0..layers - 1 {
            let (a, b) = (decay_position(layer, layers), decay_position(layer + 1, layers));
            assert_eq!(a.1, b.1);
            assert!(a.0 <= b.0 && b.0 < b.1);
            assert_eq!(a.0 == b.0, layer == 0);
        }
    }
}
