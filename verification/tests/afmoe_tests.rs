use mlxcel_models::afmoe::{
    default_head_dim, default_hidden_size, default_intermediate_size, default_max_position_embeddings,
    default_model_type, default_moe_intermediate_size, default_n_group, default_num_attention_heads,
    default_num_dense_layers, default_num_experts, default_num_experts_per_tok, default_num_hidden_layers,
    default_num_key_value_heads, default_num_shared_experts, default_rms_norm_eps, default_rope_theta,
    default_route_scale, default_score_func, default_sliding_window, default_topk_group, default_true,
    default_vocab_size, validate_weights, AfmoeModel, CacheFlavour, FeedForward, MaskChoice, ModelArgs,
    Quantization, ScoreFunc, TokenIdField,
};
use mlxcel_models::json::ScalingBlock;
use mlxcel_models::plan::{Basis, Divisor, Kernel, Precision, Scoring};
use mlxcel_models::single::Single;
use mlxcel_models::steps::{Action, Build, StepKind, Steps};
use mlxcel_models::weights::{Outcome, PackingAnswers, PackingRequest, WeightMap};
use serde_json::Value;

fn count(v: &Value, key: &str) -> Option<usize> {
    v.get(key).and_then(Value::as_u64).map(|n| n as usize)
}

fn flag(v: &Value, key: &str, default: bool) -> bool {
    v.get(key).and_then(Value::as_bool).unwrap_or(default)
}

fn word(v: &Value, key: &str) -> Option<String> {
    v.get(key).and_then(Value::as_str).map(str::to_string)
}

fn single(x: f32) -> Single {
    Single { bits: x.to_bits(), text: x.to_string() }
}

fn number(v: &Value, key: &str) -> Option<Single> {
    v.get(key).and_then(Value::as_f64).map(|x| single(x as f32))
}

fn value_of(s: &Single) -> f32 {
    f32::from_bits(s.bits)
}

fn scaling(v: &Value) -> Option<ScalingBlock> {
    v.get("rope_scaling").and_then(Value::as_object).map(|m| ScalingBlock {
        members: m.iter().map(|(k, x)| (k.clone(), x.clone())).collect(),
    })
}

fn eos(v: &Value) -> Option<TokenIdField> {
    let field = v.get("eos_token_id")?;
    if let Some(ids) = field.as_array() {
        return Some(TokenIdField::Multiple(ids.iter().map(|i| i.as_i64().unwrap() as i32).collect()));
    }
    field.as_i64().map(|i| TokenIdField::Single(i as i32))
}

fn quant(v: &Value) -> Option<Quantization> {
    v.get("quantization").map(|q| Quantization {
        group_size: q.get("group_size").and_then(Value::as_i64).unwrap() as i32,
        bits: q.get("bits").and_then(Value::as_i64).unwrap() as i32,
    })
}

/// What the tensor engine says of the quantization parameters.
fn engine_params(q: &Option<Quantization>) -> Option<String> {
    let q = q.as_ref()?;
    if q.bits <= 0 || q.bits > 32 {
        return Some(format!("bits {} must be between 1 and 32", q.bits));
    }
    if q.group_size <= 0 {
        return Some(format!("group_size {} must be positive", q.group_size));
    }
    None
}

/// What the tensor engine says of the packing of a quantized tensor.
fn engine_packing(r: &PackingRequest) -> Result<(), String> {
    let cols = *r.scales.last().unwrap();
    if let Some(b) = &r.biases {
        if b != &r.scales {
            return Err(format!("{}: biases and scales must have the same shape", r.prefix));
        }
    }
    if cols * r.group_size != r.in_features as i32 || *r.weight.last().unwrap() * 32 / r.bits != r.in_features as i32 {
        return Err(format!("{}: packed for another input width", r.prefix));
    }
    Ok(())
}

fn check_config(args: &ModelArgs) -> Result<(), String> {
    let refusal = engine_params(&args.quantization);
    args.validate(refusal.as_deref())
}

fn check_weights(weights: &WeightMap, args: &ModelArgs) -> Result<(), String> {
    let mut answers = PackingAnswers::new();
    loop {
        match validate_weights(weights, args, &answers) {
            Outcome::Pass => return Ok(()),
            Outcome::Fail(e) => return Err(e),
            Outcome::Ask(r) => match engine_packing(&r) {
                Ok(()) => answers.accept(r.prefix),
                Err(e) => answers.refuse(r.prefix.clone(), e),
            },
        }
    }
}

fn parse(json: &str) -> Result<ModelArgs, serde_json::Error> {
    let v: Value = serde_json::from_str(json)?;
    Ok(ModelArgs {
        model_type: word(&v, "model_type").unwrap_or_else(default_model_type),
        layer_types: v
            .get("layer_types")
            .and_then(Value::as_array)
            .map(|a| a.iter().map(|t| t.as_str().unwrap().to_string()).collect())
            .unwrap_or_default(),
        vocab_size: count(&v, "vocab_size").unwrap_or_else(default_vocab_size),
        hidden_size: count(&v, "hidden_size").unwrap_or_else(default_hidden_size),
        intermediate_size: count(&v, "intermediate_size").unwrap_or_else(default_intermediate_size),
        moe_intermediate_size: count(&v, "moe_intermediate_size").unwrap_or_else(default_moe_intermediate_size),
        num_hidden_layers: count(&v, "num_hidden_layers").unwrap_or_else(default_num_hidden_layers),
        num_attention_heads: count(&v, "num_attention_heads").unwrap_or_else(default_num_attention_heads),
        num_key_value_heads: count(&v, "num_key_value_heads").unwrap_or_else(default_num_key_value_heads),
        head_dim: count(&v, "head_dim").unwrap_or_else(default_head_dim),
        max_position_embeddings: count(&v, "max_position_embeddings")
            .unwrap_or_else(default_max_position_embeddings),
        rms_norm_eps: number(&v, "rms_norm_eps").unwrap_or_else(default_rms_norm_eps),
        rope_theta: number(&v, "rope_theta").unwrap_or_else(default_rope_theta),
        rope_scaling: scaling(&v),
        tie_word_embeddings: flag(&v, "tie_word_embeddings", false),
        num_experts: count(&v, "num_experts").unwrap_or_else(default_num_experts),
        num_experts_per_tok: count(&v, "num_experts_per_tok").unwrap_or_else(default_num_experts_per_tok),
        num_shared_experts: count(&v, "num_shared_experts").unwrap_or_else(default_num_shared_experts),
        num_dense_layers: count(&v, "num_dense_layers").unwrap_or_else(default_num_dense_layers),
        route_norm: flag(&v, "route_norm", default_true()),
        route_scale: number(&v, "route_scale").unwrap_or_else(default_route_scale),
        score_func: word(&v, "score_func").unwrap_or_else(default_score_func),
        n_group: count(&v, "n_group").unwrap_or_else(default_n_group),
        topk_group: count(&v, "topk_group").unwrap_or_else(default_topk_group),
        sliding_window: count(&v, "sliding_window").unwrap_or_else(default_sliding_window),
        mup_enabled: flag(&v, "mup_enabled", default_true()),
        eos_token_id: eos(&v),
        quantization: quant(&v),
    })
}

const TRINITY_CONFIG: &str = r#"{
    "architectures": ["AfmoeForCausalLM"],
    "attention_dropout": 0.0,
    "dtype": "bfloat16",
    "global_attn_every_n_layers": 4,
    "head_dim": 128,
    "hidden_act": "silu",
    "hidden_size": 1024,
    "initializer_range": 0.02,
    "intermediate_size": 3072,
    "layer_types": [
        "sliding_attention", "sliding_attention", "sliding_attention", "full_attention",
        "sliding_attention", "sliding_attention", "sliding_attention", "full_attention"
    ],
    "load_balance_coeff": 0.001,
    "max_position_embeddings": 131072,
    "model_type": "afmoe",
    "moe_intermediate_size": 256,
    "mup_enabled": true,
    "n_group": 1,
    "num_attention_heads": 8,
    "num_dense_layers": 2,
    "num_expert_groups": 1,
    "num_experts": 128,
    "num_experts_per_tok": 8,
    "num_hidden_layers": 8,
    "num_key_value_heads": 2,
    "num_limited_groups": 1,
    "num_shared_experts": 1,
    "quantization": {"group_size": 64, "bits": 4, "mode": "affine"},
    "rms_norm_eps": 1e-05,
    "rope_scaling": null,
    "rope_theta": 10000,
    "route_norm": true,
    "route_scale": 2.826,
    "score_func": "sigmoid",
    "sliding_window": 2048,
    "tie_word_embeddings": false,
    "topk_group": 1,
    "use_cache": true,
    "use_grouped_mm": true,
    "vocab_size": 200192
}"#;

fn trinity_args() -> ModelArgs {
    parse(TRINITY_CONFIG).expect("Trinity config parses")
}

fn lazy(shape: &[i32]) -> Vec<i32> {
    shape.to_vec()
}

fn synthetic_weights(args: &ModelArgs) -> WeightMap {
    let hidden = args.hidden_size as i32;
    let head_dim = args.head_dim as i32;
    let q_size = args.num_attention_heads as i32 * head_dim;
    let kv_size = args.num_key_value_heads as i32 * head_dim;
    let experts = args.num_experts as i32;
    let moe = args.moe_intermediate_size as i32;
    let mut weights = WeightMap::new();
    weights.insert(
        "model.embed_tokens.weight".into(),
        lazy(&[args.vocab_size as i32, hidden]),
    );
    weights.insert("model.norm.weight".into(), lazy(&[hidden]));
    weights.insert(
        "lm_head.weight".into(),
        lazy(&[args.vocab_size as i32, hidden]),
    );
    for layer in 0..args.num_hidden_layers {
        let prefix = format!("model.layers.{layer}");
        let attn = format!("{prefix}.self_attn");
        weights.insert(format!("{attn}.q_proj.weight"), lazy(&[q_size, hidden]));
        weights.insert(format!("{attn}.k_proj.weight"), lazy(&[kv_size, hidden]));
        weights.insert(format!("{attn}.v_proj.weight"), lazy(&[kv_size, hidden]));
        weights.insert(format!("{attn}.o_proj.weight"), lazy(&[hidden, q_size]));
        weights.insert(format!("{attn}.gate_proj.weight"), lazy(&[q_size, hidden]));
        weights.insert(format!("{attn}.q_norm.weight"), lazy(&[head_dim]));
        weights.insert(format!("{attn}.k_norm.weight"), lazy(&[head_dim]));
        for leaf in [
            "input_layernorm",
            "post_attention_layernorm",
            "pre_mlp_layernorm",
            "post_mlp_layernorm",
        ] {
            weights.insert(format!("{prefix}.{leaf}.weight"), lazy(&[hidden]));
        }
        let mlp = format!("{prefix}.mlp");
        if args.is_moe_layer(layer) {
            weights.insert(
                format!("{mlp}.router.gate.weight"),
                lazy(&[experts, hidden]),
            );
            weights.insert(format!("{mlp}.expert_bias"), lazy(&[experts]));
            weights.insert(
                format!("{mlp}.experts.gate_proj.weight"),
                lazy(&[experts, moe, hidden]),
            );
            weights.insert(
                format!("{mlp}.experts.up_proj.weight"),
                lazy(&[experts, moe, hidden]),
            );
            weights.insert(
                format!("{mlp}.experts.down_proj.weight"),
                lazy(&[experts, hidden, moe]),
            );
            let shared = args.shared_expert_intermediate_size() as i32;
            weights.insert(
                format!("{mlp}.shared_experts.gate_proj.weight"),
                lazy(&[shared, hidden]),
            );
            weights.insert(
                format!("{mlp}.shared_experts.up_proj.weight"),
                lazy(&[shared, hidden]),
            );
            weights.insert(
                format!("{mlp}.shared_experts.down_proj.weight"),
                lazy(&[hidden, shared]),
            );
        } else {
            let inter = args.intermediate_size as i32;
            weights.insert(format!("{mlp}.gate_proj.weight"), lazy(&[inter, hidden]));
            weights.insert(format!("{mlp}.up_proj.weight"), lazy(&[inter, hidden]));
            weights.insert(format!("{mlp}.down_proj.weight"), lazy(&[hidden, inter]));
        }
    }
    weights
}

fn small_args() -> ModelArgs {
    let mut args = trinity_args();
    args.hidden_size = 64;
    args.head_dim = 16;
    args.num_attention_heads = 4;
    args.num_key_value_heads = 2;
    args.num_hidden_layers = 6;
    args.layer_types = [
        "sliding_attention",
        "sliding_attention",
        "full_attention",
        "sliding_attention",
        "sliding_attention",
        "full_attention",
    ]
    .iter()
    .map(|s| (*s).to_string())
    .collect();
    args.intermediate_size = 128;
    args.moe_intermediate_size = 32;
    args.num_experts = 8;
    args.num_experts_per_tok = 2;
    args.num_dense_layers = 2;
    args.vocab_size = 96;
    args.sliding_window = 8;
    args.quantization = Some(Quantization {
        group_size: 64,
        bits: 4,
    });
    args
}

#[test]
fn afmoe_tests_the_real_config_parses_and_validates() {
    let args = trinity_args();
    assert_eq!(args.model_type, "afmoe");
    assert_eq!(args.hidden_size, 1024);
    assert_eq!(args.head_dim, 128);
    assert_eq!(args.num_attention_heads, 8);
    assert_eq!(args.num_key_value_heads, 2);
    assert_eq!(args.intermediate_size, 3072);
    assert_eq!(args.moe_intermediate_size, 256);
    assert_eq!(args.num_experts, 128);
    assert_eq!(args.num_experts_per_tok, 8);
    assert_eq!(args.num_shared_experts, 1);
    assert_eq!(args.num_dense_layers, 2);
    assert_eq!(args.sliding_window, 2048);
    assert_eq!(value_of(&args.route_scale), 2.826);
    assert!(args.route_norm);
    assert!(args.mup_enabled);
    assert_eq!(args.score_func(), ScoreFunc::Sigmoid);
    assert_eq!(args.n_group, 1);
    assert_eq!(args.group_size(), 64);
    assert_eq!(args.bits(), 4);
    check_config(&args).expect("the shipped config is accepted");
}

#[test]
fn the_head_dim_is_read_and_not_derived() {
    let args = trinity_args();
    assert_eq!(args.hidden_size / args.num_attention_heads, 128);
    assert_eq!(args.head_dim, 128);
    let mut args = trinity_args();
    args.head_dim = 64;
    assert_eq!(args.head_dim, 64, "the declared width wins over the ratio");
    check_config(&args)
        .expect("a head width that disagrees with the ratio is legal");
}

#[test]
fn the_schedule_comes_from_layer_types_not_the_modulus() {
    let args = trinity_args();
    let sliding: Vec<bool> = (0..args.num_hidden_layers)
        .map(|i| args.is_sliding_layer(i))
        .collect();
    assert_eq!(
        sliding,
        vec![true, true, true, false, true, true, true, false]
    );
    assert_eq!(args.full_attention_index(), Some(3));
    assert_eq!(args.sliding_index(), Some(0));
}

#[test]
fn an_irregular_layer_types_list_is_honoured_over_global_attn_every_n_layers() {
    let args: ModelArgs = parse(
        r#"{"model_type": "afmoe", "num_hidden_layers": 5, "global_attn_every_n_layers": 4,
            "layer_types": ["full_attention", "sliding_attention", "sliding_attention",
                            "sliding_attention", "sliding_attention"]}"#,
    )
    .expect("config parses");
    let sliding: Vec<bool> = (0..5).map(|i| args.is_sliding_layer(i)).collect();
    assert_eq!(sliding, vec![false, true, true, true, true]);
    assert!(args.is_sliding_layer(3));
    assert_eq!(args.full_attention_index(), Some(0));
}

#[test]
fn a_layer_types_list_shorter_than_the_stack_is_rejected() {
    let mut args = trinity_args();
    args.num_hidden_layers = 12; // the list only covers 8
    let err = check_config(&args)
        .expect_err("a short schedule would silently make the tail global");
    assert!(err.contains("layer_types"), "{err}");
}

#[test]
fn an_unrecognized_layer_type_is_rejected() {
    let args: ModelArgs = parse(
        r#"{"model_type": "afmoe", "num_hidden_layers": 2,
            "layer_types": ["sliding_attention", "chunked_attention"]}"#,
    )
    .expect("config parses");
    let err = check_config(&args).expect_err("only two kinds are defined");
    assert!(err.contains("chunked_attention"), "{err}");
}

#[test]
fn a_top_k_larger_than_the_expert_count_is_rejected() {
    let mut args = trinity_args();
    args.num_experts_per_tok = 129;
    let err = check_config(&args)
        .expect_err("129 of 128 experts is out of range");
    assert!(err.contains("num_experts_per_tok"), "{err}");
}

#[test]
fn the_grouped_routing_guards_fire_even_though_trinity_never_reaches_them() {
    let mut args = trinity_args();
    args.n_group = 4;
    args.topk_group = 4;
    let err = check_config(&args)
        .expect_err("topk_group == n_group puts argpartition out of range");
    assert!(err.contains("topk_group"), "{err}");
    let mut args = trinity_args();
    args.n_group = 5; // 128 is not divisible by 5
    args.topk_group = 2;
    let err = check_config(&args)
        .expect_err("an indivisible expert count cannot be regrouped");
    assert!(err.contains("n_group"), "{err}");
    let mut args = trinity_args();
    args.n_group = 128; // one expert per group
    args.topk_group = 2;
    let err = check_config(&args)
        .expect_err("a group of one cannot be scored by its top two");
    assert!(err.contains("per group"), "{err}");
}

#[test]
fn an_unrecognized_score_func_is_rejected() {
    let mut args = trinity_args();
    args.score_func = "relu".into();
    let err = check_config(&args).expect_err("only sigmoid and softmax exist");
    assert!(err.contains("score_func"), "{err}");
}

#[test]
fn a_zero_sliding_window_is_rejected_when_a_layer_slides() {
    let mut args = trinity_args();
    args.sliding_window = 0;
    let err = check_config(&args)
        .expect_err("a zero window would keep no keys");
    assert!(err.contains("sliding_window"), "{err}");
    let args: ModelArgs = parse(
        r#"{"model_type": "afmoe", "num_hidden_layers": 2, "sliding_window": 0,
            "layer_types": ["full_attention", "full_attention"], "num_dense_layers": 2}"#,
    )
    .expect("config parses");
    check_config(&args).expect("an unused window may be anything");
}

#[test]
fn an_odd_head_dim_is_rejected() {
    let mut args = trinity_args();
    args.head_dim = 127;
    let err = check_config(&args).expect_err("RoPE rotates channel pairs");
    assert!(err.contains("head_dim"), "{err}");
}

#[test]
fn afmoe_tests_a_non_default_rope_scaling_block_is_rejected() {
    let args: ModelArgs = parse(
        r#"{"model_type": "afmoe", "num_hidden_layers": 1, "num_dense_layers": 1,
            "layer_types": ["full_attention"],
            "rope_scaling": {"rope_type": "linear", "factor": 4.0}}"#,
    )
    .expect("config parses");
    let err = check_config(&args)
        .expect_err("a scaled rope block is rejected");
    assert!(err.contains("rope_scaling"), "{err}");
}

#[test]
fn afmoe_tests_a_zero_scalar_is_rejected_before_it_divides() {
    for mutate in [
        (|a: &mut ModelArgs| a.num_attention_heads = 0) as fn(&mut ModelArgs),
        |a: &mut ModelArgs| a.hidden_size = 0,
        |a: &mut ModelArgs| a.head_dim = 0,
        |a: &mut ModelArgs| a.num_hidden_layers = 0,
        |a: &mut ModelArgs| a.num_key_value_heads = 0,
        |a: &mut ModelArgs| a.vocab_size = 0,
        |a: &mut ModelArgs| a.intermediate_size = 0,
        |a: &mut ModelArgs| a.moe_intermediate_size = 0,
        |a: &mut ModelArgs| a.rms_norm_eps = single(0.0),
        |a: &mut ModelArgs| a.rope_theta = single(0.0),
    ] {
        let mut args = trinity_args();
        mutate(&mut args);
        assert!(
            check_config(&args).is_err(),
            "a zero scalar must be rejected at load"
        );
    }
}

#[test]
fn afmoe_tests_a_well_formed_checkpoint_passes_validation() {
    let args = small_args();
    check_config(&args).expect("the shrunk config is valid");
    let weights = synthetic_weights(&args);
    check_weights(&weights, &args).expect("the synthetic export validates");
}

#[test]
fn a_missing_attention_gate_is_rejected() {
    let args = small_args();
    let mut weights = synthetic_weights(&args);
    weights.remove("model.layers.0.self_attn.gate_proj.weight");
    let err = check_weights(&weights, &args).expect_err("the attention gate is required");
    assert!(err.contains("gate_proj"), "{err}");
}

#[test]
fn all_four_norms_are_required() {
    for leaf in [
        "input_layernorm",
        "post_attention_layernorm",
        "pre_mlp_layernorm",
        "post_mlp_layernorm",
    ] {
        let args = small_args();
        let mut weights = synthetic_weights(&args);
        weights.remove(&format!("model.layers.0.{leaf}.weight"));
        match check_weights(&weights, &args) {
            Ok(()) => panic!("{leaf} must be required"),
            Err(err) => assert!(err.contains(leaf), "{err}"),
        }
    }
}

#[test]
fn afmoe_tests_a_short_expert_stack_is_rejected() {
    let args = small_args();
    let mut weights = synthetic_weights(&args);
    weights.insert(
        "model.layers.2.mlp.experts.gate_proj.weight".into(),
        lazy(&[
            args.num_experts as i32 - 1,
            args.moe_intermediate_size as i32,
            args.hidden_size as i32,
        ]),
    );
    let err = check_weights(&weights, &args).expect_err("a short stack is rejected");
    assert!(err.contains("num_experts"), "{err}");
}

#[test]
fn afmoe_tests_a_dense_prefix_layer_is_validated_as_a_plain_mlp() {
    let args = small_args();
    let weights = synthetic_weights(&args);
    assert!(!args.is_moe_layer(0) && !args.is_moe_layer(1));
    assert!(args.is_moe_layer(2));
    assert!(weights.contains_key("model.layers.0.mlp.gate_proj.weight"));
    assert!(!weights.contains_key("model.layers.0.mlp.router.gate.weight"));
    check_weights(&weights, &args).expect("the dense prefix validates");
}

fn build(weights: &WeightMap, args: &ModelArgs) -> (AfmoeModel, Steps) {
    match AfmoeModel::from_weights(weights, args, &PackingAnswers::new(), None) {
        Build::Ready(model, steps) => (model, steps),
        Build::Refused(e) => panic!("{e}"),
        Build::Ask(r) => panic!("{}", r.prefix),
    }
}

fn keys(steps: &Steps) -> Vec<(StepKind, String)> {
    (0..steps.len()).map(|i| (steps.get(i).kind, steps.get(i).key.clone())).collect()
}

#[test]
fn afmoe_layers_follow_the_schedule_and_the_dense_prefix() {
    let args = small_args();
    let (model, _) = build(&synthetic_weights(&args), &args);
    assert_eq!(model.num_layers(), args.num_hidden_layers);
    for (i, layer) in model.layers.iter().enumerate() {
        assert_eq!(layer.uses_sliding, args.is_sliding_layer(i));
        assert_eq!(layer.self_attn.uses_rope, args.is_sliding_layer(i));
        assert_eq!(matches!(layer.mlp, FeedForward::Sparse(_)), i >= 2);
    }
    let caches = model.make_internal_caches();
    assert_eq!(caches[0], CacheFlavour::Rotating { window: 8 });
    assert_eq!(caches[2], CacheFlavour::Standard);
}

#[test]
fn afmoe_loads_its_tensors_in_order() {
    let args = small_args();
    let (_, steps) = build(&synthetic_weights(&args), &args);
    let keys = keys(&steps);
    assert_eq!(keys[0], (StepKind::Embedding, "model.embed_tokens".to_string()));
    assert_eq!(keys[1], (StepKind::Linear, "model.layers.0.self_attn.q_proj".to_string()));
    assert_eq!(keys[5], (StepKind::Linear, "model.layers.0.self_attn.gate_proj".to_string()));
    assert_eq!(keys[6], (StepKind::Tensor, "model.layers.0.self_attn.q_norm.weight".to_string()));
    assert_eq!(keys[keys.len() - 2], (StepKind::Tensor, "model.norm.weight".to_string()));
    assert_eq!(keys[keys.len() - 1], (StepKind::Linear, "lm_head".to_string()));
    assert!(keys.contains(&(StepKind::OptionalTensor, "model.layers.2.mlp.expert_bias".to_string())));
    assert!(keys.contains(&(StepKind::Experts, "model.layers.5.mlp.experts".to_string())));
    // An embedding, two dense layers of 14 steps, four sparse ones of 17, a norm and a head.
    assert_eq!(keys.len(), 1 + 2 * 14 + 4 * 17 + 2);
}

#[test]
fn afmoe_masks_are_sized_by_the_first_cache_of_each_kind() {
    let args = small_args();
    let (model, _) = build(&synthetic_weights(&args), &args);
    let live = vec![3, 4, 5, 6, 7, 8];
    let masks = model.forward(4, &live);
    assert_eq!(masks.full, Some(5));
    assert_eq!(masks.sliding, Some((3, 8)));
    assert_eq!(model.layer_mask(&masks, 0), MaskChoice::Sliding);
    assert_eq!(model.layer_mask(&masks, 2), MaskChoice::Full);
    let masks = model.forward(1, &live);
    assert_eq!(masks.full, None);
    assert_eq!(model.layer_mask(&masks, 0), MaskChoice::Nothing);
    assert!(model.forward_for_sequence(false, 4));
    assert!(!model.forward_for_sequence(false, 1));
    assert!(!model.forward_for_sequence(true, 4));
}

#[test]
fn afmoe_attention_rotates_only_where_it_slides() {
    let args = small_args();
    let (model, _) = build(&synthetic_weights(&args), &args);
    let sliding = model.layers[0].self_attn.forward(&vec![1, 5, 64], 7);
    let rope = sliding.rope.unwrap();
    assert_eq!((rope.dims, rope.traditional, rope.offset), (16, false, 7));
    assert_eq!((sliding.q_heads, sliding.kv_heads, sliding.head_dim, sliding.width), (4, 2, 16, 64));
    assert!(model.layers[2].self_attn.forward(&vec![1, 5, 64], 7).rope.is_none());
    assert_eq!(model.layers[0].self_attn.attend(5, false).kernel, Kernel::Causal { window: 0 });
    assert_eq!(model.layers[0].self_attn.attend(1, false).kernel, Kernel::Masked { window: 0 });
    assert_eq!(model.layers[0].self_attn.attend(5, true).kernel, Kernel::Masked { window: 0 });
}

#[test]
fn afmoe_routes_inside_the_row() {
    let args = small_args();
    let (model, _) = build(&synthetic_weights(&args), &args);
    let moe = match &model.layers[2].mlp {
        FeedForward::Sparse(m) => m,
        FeedForward::Dense(_) => panic!("layer 2 is sparse"),
    };
    let plan = moe.route(8);
    assert_eq!((plan.kth, plan.first, plan.stop), (1, 0, 2));
    assert_eq!(plan.divisor, Some(Divisor::Sum));
    assert_eq!(plan.scoring, Scoring::Sigmoid);
    assert_eq!((plan.selected_by, plan.weighed_by), (Basis::BiasedScore, Basis::Score));
    assert!(plan.descending);
    assert_eq!(plan.scale, Some(args.route_scale.bits));
    assert_eq!(plan.weights_in, Precision::Single);
    assert!(plan.groups.is_none());
    assert_eq!(moe.route(1).kth, 0);
    let flat = moe.forward(&vec![2, 3, 64]);
    assert_eq!((flat.tokens, flat.hidden, flat.single_token), (Some(6), 64, false));
    let flat = moe.forward(&vec![1, 64]);
    assert_eq!((flat.tokens, flat.single_token), (None, true));
}

#[test]
fn afmoe_messages_name_the_value_and_the_bound() {
    let mut args = trinity_args();
    args.num_attention_heads = 5000;
    assert_eq!(
        check_config(&args).unwrap_err(),
        "AFMoE num_attention_heads (5000) must be between 1 and 4096"
    );
    let mut args = trinity_args();
    args.num_key_value_heads = 3;
    assert_eq!(
        check_config(&args).unwrap_err(),
        "AFMoE num_attention_heads (8) must be divisible by num_key_value_heads (3) for grouped-query attention"
    );
    let mut args = trinity_args();
    args.num_dense_layers = 9;
    assert_eq!(
        check_config(&args).unwrap_err(),
        "AFMoE num_dense_layers (9) must not exceed num_hidden_layers (8)"
    );
    let mut args = trinity_args();
    args.num_shared_experts = 1025;
    assert_eq!(check_config(&args).unwrap_err(), "AFMoE num_shared_experts (1025) must not exceed 1024");
    let mut args = trinity_args();
    args.route_scale = single(f32::INFINITY);
    assert!(check_config(&args).unwrap_err().starts_with("AFMoE route_scale (inf) must be finite"));
    let mut args = trinity_args();
    args.rms_norm_eps = single(f32::NAN);
    assert!(check_config(&args).unwrap_err().starts_with("AFMoE rms_norm_eps (NaN) must be a finite"));
    let mut args = trinity_args();
    args.quantization = Some(Quantization { group_size: 64, bits: 0 });
    assert_eq!(
        check_config(&args).unwrap_err(),
        "AFMoE config.json: bits 0 must be between 1 and 32"
    );
}

#[test]
fn afmoe_scaling_message_shows_the_block() {
    let args = parse(
        r#"{"num_hidden_layers": 1, "num_dense_layers": 1, "rope_scaling": {"factor": 4.0, "rope_type": "linear"}}"#,
    )
    .unwrap();
    let err = check_config(&args).unwrap_err();
    assert!(
        err.starts_with(
            "AFMoE rope_scaling ({\"factor\": Number(4.0), \"rope_type\": String(\"linear\")}) is not implemented"
        ),
        "{err}"
    );
    // A `rope_type` that is no string is not overruled by `type`.
    let args = parse(
        r#"{"num_hidden_layers": 1, "num_dense_layers": 1, "rope_scaling": {"rope_type": 1, "type": "default"}}"#,
    )
    .unwrap();
    assert!(check_config(&args).is_err());
}

#[test]
fn afmoe_weight_messages_are_exact() {
    let args = small_args();
    let mut weights = synthetic_weights(&args);
    weights.insert("model.layers.1.self_attn.k_norm.weight".into(), vec![17]);
    assert_eq!(
        check_weights(&weights, &args).unwrap_err(),
        "unexpected model.layers.1.self_attn.k_norm.weight shape [17]: expected [16]"
    );
    let mut weights = synthetic_weights(&args);
    weights.insert("lm_head.weight".into(), vec![96, 63]);
    assert_eq!(
        check_weights(&weights, &args).unwrap_err(),
        "unexpected lm_head.weight shape [96, 63]: expected [96, 64]"
    );
    let mut weights = synthetic_weights(&args);
    weights.insert("model.layers.3.mlp.expert_bias".into(), vec![-1, 8]);
    assert_eq!(
        check_weights(&weights, &args).unwrap_err(),
        "unexpected model.layers.3.mlp.expert_bias shape [-1, 8]: expected [8]; it is added to a row of that many router scores"
    );
    let mut weights = synthetic_weights(&args);
    weights.insert("model.embed_tokens.scales".into(), vec![96, 1]);
    weights.remove("model.embed_tokens.weight");
    assert_eq!(
        check_weights(&weights, &args).unwrap_err(),
        "Weight not found: model.embed_tokens.weight (but model.embed_tokens.scales exists)"
    );
}

#[test]
fn afmoe_asks_about_each_quantized_tensor_once() {
    let args = small_args();
    let mut weights = synthetic_weights(&args);
    weights.insert("lm_head.weight".into(), vec![96, 8]);
    weights.insert("lm_head.scales".into(), vec![96, 1]);
    weights.insert("lm_head.biases".into(), vec![96, 1]);
    let mut answers = PackingAnswers::new();
    match validate_weights(&weights, &args, &answers) {
        Outcome::Ask(r) => {
            assert_eq!(r.prefix, "lm_head");
            assert_eq!((r.weight.clone(), r.scales.clone(), r.biases.clone()), (vec![96, 8], vec![96, 1], Some(vec![96, 1])));
            assert_eq!((r.in_features, r.group_size, r.bits), (64, 64, 4));
        }
        _ => panic!("the head is quantized"),
    }
    answers.accept("lm_head".to_string());
    assert!(validate_weights(&weights, &args, &answers).passed());
    answers.refuse("lm_head".to_string(), "no".to_string());
    match validate_weights(&weights, &args, &answers) {
        Outcome::Fail(e) => assert_eq!(e, "no"),
        _ => panic!("the packing was refused"),
    }
}

#[test]
fn afmoe_passing_checkpoint_serves_every_step() {
    let args = small_args();
    let weights = synthetic_weights(&args);
    assert!(check_weights(&weights, &args).is_ok());
    let (_, steps) = build(&weights, &args);
    for i in 0..steps.len() {
        let step = steps.get(i);
        assert!(!matches!(step.action(&weights), Action::Fail(_)), "{}", step.key);
        if step.kind == StepKind::Linear {
            assert!(weights.contains_key(&format!("{}.weight", step.key)), "{}", step.key);
        }
    }
}

#[test]
fn afmoe_window_beyond_a_cache_is_rejected_when_a_layer_slides() {
    let mut args = trinity_args();
    args.sliding_window = 4294967296;
    assert_eq!(
        check_config(&args).unwrap_err(),
        "AFMoE sliding_window (4294967296) must not exceed 2147483647 when layer_types declares a \
         sliding_attention layer; a cache counts its window in 32 bits"
    );
    args.sliding_window = 2147483648;
    assert!(check_config(&args).is_err());
    args.sliding_window = 2147483647;
    check_config(&args).expect("the largest window that a cache can count");
    args.sliding_window = 4294967296;
    args.layer_types.iter_mut().for_each(|kind| *kind = "full_attention".to_string());
    check_config(&args).expect("an unused window may be anything");
    let mut args = small_args();
    args.sliding_window = 2147483647;
    let (model, _) = build(&synthetic_weights(&args), &args);
    assert_eq!(model.sliding_window, i32::MAX);
}

#[test]
fn afmoe_missing_norm_is_named_in_any_layer() {
    let args = small_args();
    for layer in 0..args.num_hidden_layers {
        for leaf in ["input_layernorm", "post_attention_layernorm", "pre_mlp_layernorm", "post_mlp_layernorm"] {
            let mut weights = synthetic_weights(&args);
            let key = format!("model.layers.{layer}.{leaf}.weight");
            weights.remove(&key);
            assert_eq!(check_weights(&weights, &args).unwrap_err(), format!("Weight not found: {key}"));
        }
    }
}

#[test]
fn afmoe_prompt_is_masked_in_every_layer() {
    let args = small_args();
    let (model, _) = build(&synthetic_weights(&args), &args);
    let live: Vec<i32> = (0..model.num_layers() as i32).map(|i| 10 + i).collect();
    let masks = model.forward(2, &live);
    for (i, layer) in model.layers.iter().enumerate() {
        let expected = if layer.uses_sliding { MaskChoice::Sliding } else { MaskChoice::Full };
        assert_eq!(model.layer_mask(&masks, i), expected);
        assert_eq!(layer.self_attn.attend(2, true).kernel, Kernel::Masked { window: 0 });
    }
    let masks = model.forward(1, &live);
    assert!((0..model.num_layers()).all(|i| model.layer_mask(&masks, i) == MaskChoice::Nothing));
}
