use mlxcel_models::bailing_moe::{
    default_max_position_embeddings, default_model_type, default_n_group, default_norm_topk_prob,
    default_num_experts_per_tok, default_partial_rotary_factor, default_rms_norm_eps, default_rope_theta,
    default_routed_scaling_factor, default_score_function, default_topk_group, default_true, load_lm_head,
    router_prefix, validate_weights, BailingMoeGate, BailingMoeModel, DecoderLayer, FeedForward, ModelArgs, Quantization,
    ScoreFunction, TokenIdField,
};
use mlxcel_models::json::ScalingBlock;
use mlxcel_models::plan::{Basis, Divisor, Precision, Scoring};
use mlxcel_models::single::Single;
use mlxcel_models::steps::{Action, Build, StepKind, Steps};
use mlxcel_models::weights::{Outcome, PackingAnswers, PackingRequest, WeightMap};
use serde_json::Value;

fn count(v: &Value, key: &str) -> Option<usize> {
    v.get(key).and_then(Value::as_u64).map(|n| n as usize)
}

fn flag(v: &Value, key: &str, default: bool) -> bool {
    v.get(key).and_then(Value::as_bool).unwrap_or(default)
}

fn word(v: &Value, key: &str) -> Option<String> {
    v.get(key).and_then(Value::as_str).map(str::to_string)
}

fn single(x: f32) -> Single {
    Single { bits: x.to_bits(), text: x.to_string() }
}

fn number(v: &Value, key: &str) -> Option<Single> {
    v.get(key).and_then(Value::as_f64).map(|x| single(x as f32))
}

fn value_of(s: &Single) -> f32 {
    f32::from_bits(s.bits)
}

fn scaling(v: &Value) -> Option<ScalingBlock> {
    v.get("rope_scaling").and_then(Value::as_object).map(|m| ScalingBlock {
        members: m.iter().map(|(k, x)| (k.clone(), x.clone())).collect(),
    })
}

fn eos(v: &Value) -> Option<TokenIdField> {
    let field = v.get("eos_token_id")?;
    if let Some(ids) = field.as_array() {
        return Some(TokenIdField::Multiple(ids.iter().map(|i| i.as_i64().unwrap() as i32).collect()));
    }
    field.as_i64().map(|i| TokenIdField::Single(i as i32))
}

fn quant(v: &Value) -> Option<Quantization> {
    v.get("quantization").map(|q| Quantization {
        group_size: q.get("group_size").and_then(Value::as_i64).unwrap() as i32,
        bits: q.get("bits").and_then(Value::as_i64).unwrap() as i32,
    })
}

/// What the tensor engine says of the quantization parameters.
fn engine_params(q: &Option<Quantization>) -> Option<String> {
    let q = q.as_ref()?;
    if q.bits <= 0 || q.bits > 32 {
        return Some(format!("bits {} must be between 1 and 32", q.bits));
    }
    if q.group_size <= 0 {
        return Some(format!("group_size {} must be positive", q.group_size));
    }
    None
}

/// What the tensor engine says of the packing of a quantized tensor.
fn engine_packing(r: &PackingRequest) -> Result<(), String> {
    let cols = *r.scales.last().unwrap();
    if let Some(b) = &r.biases {
        if b != &r.scales {
            return Err(format!("{}: biases and scales must have the same shape", r.prefix));
        }
    }
    if cols * r.group_size != r.in_features as i32 || *r.weight.last().unwrap() * 32 / r.bits != r.in_features as i32 {
        return Err(format!("{}: packed for another input width", r.prefix));
    }
    Ok(())
}

fn check_config(args: &ModelArgs) -> Result<(), String> {
    let refusal = engine_params(&args.quantization);
    args.validate(refusal.as_deref())
}

fn check_weights(weights: &WeightMap, args: &ModelArgs) -> Result<(), String> {
    let mut answers = PackingAnswers::new();
    loop {
        match validate_weights(weights, args, &answers) {
            Outcome::Pass => return Ok(()),
            Outcome::Fail(e) => return Err(e),
            Outcome::Ask(r) => match engine_packing(&r) {
                Ok(()) => answers.accept(r.prefix),
                Err(e) => answers.refuse(r.prefix.clone(), e),
            },
        }
    }
}

fn parse(json: &str) -> Result<ModelArgs, serde_json::Error> {
    let v: Value = serde_json::from_str(json)?;
    Ok(ModelArgs {
        model_type: word(&v, "model_type").unwrap_or_else(default_model_type),
        hidden_size: count(&v, "hidden_size").unwrap(),
        num_hidden_layers: count(&v, "num_hidden_layers").unwrap(),
        num_attention_heads: count(&v, "num_attention_heads").unwrap(),
        intermediate_size: count(&v, "intermediate_size").unwrap(),
        vocab_size: count(&v, "vocab_size").unwrap(),
        num_key_value_heads: count(&v, "num_key_value_heads"),
        moe_intermediate_size: count(&v, "moe_intermediate_size"),
        num_experts: count(&v, "num_experts"),
        num_shared_experts: count(&v, "num_shared_experts").unwrap_or(0),
        num_experts_per_tok: count(&v, "num_experts_per_tok").unwrap_or_else(default_num_experts_per_tok),
        norm_topk_prob: flag(&v, "norm_topk_prob", default_norm_topk_prob()),
        first_k_dense_replace: count(&v, "first_k_dense_replace").unwrap_or(0),
        max_position_embeddings: count(&v, "max_position_embeddings")
            .unwrap_or_else(default_max_position_embeddings),
        rms_norm_eps: number(&v, "rms_norm_eps").unwrap_or_else(default_rms_norm_eps),
        rope_theta: number(&v, "rope_theta").unwrap_or_else(default_rope_theta),
        rope_scaling: scaling(&v),
        use_bias: flag(&v, "use_bias", false),
        use_qkv_bias: flag(&v, "use_qkv_bias", false),
        norm_head: flag(&v, "norm_head", false),
        norm_softmax: flag(&v, "norm_softmax", false),
        use_qk_norm: flag(&v, "use_qk_norm", false),
        tie_word_embeddings: flag(&v, "tie_word_embeddings", false),
        partial_rotary_factor: number(&v, "partial_rotary_factor").unwrap_or_else(default_partial_rotary_factor),
        rotary_dim: count(&v, "rotary_dim"),
        moe_router_enable_expert_bias: flag(&v, "moe_router_enable_expert_bias", false),
        moe_router_enable_routed_scaling: flag(&v, "moe_router_enable_routed_scaling", default_true()),
        routed_scaling_factor: number(&v, "routed_scaling_factor").unwrap_or_else(default_routed_scaling_factor),
        score_function: word(&v, "score_function").unwrap_or_else(default_score_function),
        n_group: count(&v, "n_group").unwrap_or_else(default_n_group),
        topk_group: count(&v, "topk_group").unwrap_or_else(default_topk_group),
        moe_shared_expert_intermediate_size: count(&v, "moe_shared_expert_intermediate_size"),
        moe_router_enable_shared_expert: flag(&v, "moe_router_enable_shared_expert", default_true()),
        eos_token_id: eos(&v),
        quantization: quant(&v),
    })
}

const LING_LITE_CONFIG: &str = r#"{
    "architectures": [
        "BailingMoeForCausalLM"
    ],
    "attention_dropout": 0.0,
    "auto_map": {
        "AutoConfig": "configuration_bailing_moe.BailingMoeConfig",
        "AutoModel": "modeling_bailing_moe.BailingMoeModel",
        "AutoModelForCausalLM": "modeling_bailing_moe.BailingMoeForCausalLM"
    },
    "eos_token_id": 126081,
    "pad_token_id": 126081,
    "first_k_dense_replace": 0,
    "hidden_act": "silu",
    "hidden_size": 2048,
    "initializer_range": 0.006,
    "intermediate_size": 1408,
    "max_position_embeddings": 32768,
    "model_type": "bailing_moe",
    "moe_intermediate_size": 1408,
    "num_experts": 64,
    "num_shared_experts": 2,
    "norm_topk_prob": true,
    "num_attention_heads": 16,
    "num_experts_per_tok": 6,
    "num_hidden_layers": 28,
    "num_key_value_heads": 4,
    "pretraining_tp": 1,
    "rms_norm_eps": 1e-06,
    "rope_scaling": null,
    "rope_theta": 600000,
    "tie_word_embeddings": false,
    "torch_dtype": "bfloat16",
    "transformers_version": "4.40.0",
    "use_cache": true,
    "use_bias": false,
    "use_qkv_bias": false,
    "vocab_size": 126464,
    "output_router_logits": false,
    "embedding_dropout": 0.0,
    "norm_head": false,
    "norm_softmax": false,
    "output_dropout": 0.0
}"#;

fn ling_lite() -> ModelArgs {
    parse(LING_LITE_CONFIG).expect("the Ling-lite-1.5 config parses")
}

fn tiny_args() -> ModelArgs {
    parse(
        r#"{
            "model_type": "bailing_moe",
            "hidden_size": 32,
            "num_hidden_layers": 2,
            "num_attention_heads": 4,
            "num_key_value_heads": 2,
            "intermediate_size": 40,
            "moe_intermediate_size": 24,
            "num_experts": 4,
            "num_shared_experts": 2,
            "num_experts_per_tok": 2,
            "norm_topk_prob": true,
            "first_k_dense_replace": 0,
            "max_position_embeddings": 64,
            "rms_norm_eps": 1e-06,
            "rope_theta": 600000,
            "tie_word_embeddings": false,
            "vocab_size": 20,
            "eos_token_id": 19
        }"#,
    )
    .expect("the tiny config parses")
}

fn tiny_weights(args: &ModelArgs) -> WeightMap {
    let hidden = args.hidden_size as i32;
    let vocab = args.vocab_size as i32;
    let qkv = args.qkv_out_features() as i32;
    let q_size = (args.num_attention_heads * args.head_dim()) as i32;
    let dense_ff = args.intermediate_size as i32;
    let moe_ff = args.moe_intermediate_size() as i32;
    let shared_ff = args.shared_expert_intermediate_size() as i32;
    let mut w = WeightMap::new();
    w.insert(
        "model.word_embeddings.weight".into(),
        filled(&[vocab, hidden]),
    );
    w.insert("model.norm.weight".into(), ones(&[hidden]));
    w.insert("lm_head.weight".into(), filled(&[vocab, hidden]));
    for layer in 0..args.num_hidden_layers {
        let p = format!("model.layers.{layer}");
        w.insert(format!("{p}.input_layernorm.weight"), ones(&[hidden]));
        w.insert(
            format!("{p}.post_attention_layernorm.weight"),
            ones(&[hidden]),
        );
        w.insert(
            format!("{p}.attention.query_key_value.weight"),
            filled(&[qkv, hidden]),
        );
        w.insert(
            format!("{p}.attention.dense.weight"),
            filled(&[hidden, q_size]),
        );
        let mlp = format!("{p}.mlp");
        if args.is_moe_layer(layer) {
            w.insert(
                format!("{mlp}.gate.weight"),
                filled(&[args.num_experts() as i32, hidden]),
            );
            for expert in 0..args.num_experts() {
                let e = format!("{mlp}.experts.{expert}");
                w.insert(format!("{e}.gate_proj.weight"), filled(&[moe_ff, hidden]));
                w.insert(format!("{e}.up_proj.weight"), filled(&[moe_ff, hidden]));
                w.insert(format!("{e}.down_proj.weight"), filled(&[hidden, moe_ff]));
            }
            if args.has_shared_expert() {
                let s = format!("{mlp}.shared_experts");
                w.insert(
                    format!("{s}.gate_proj.weight"),
                    filled(&[shared_ff, hidden]),
                );
                w.insert(format!("{s}.up_proj.weight"), filled(&[shared_ff, hidden]));
                w.insert(
                    format!("{s}.down_proj.weight"),
                    filled(&[hidden, shared_ff]),
                );
            }
        } else {
            w.insert(
                format!("{mlp}.gate_proj.weight"),
                filled(&[dense_ff, hidden]),
            );
            w.insert(format!("{mlp}.up_proj.weight"), filled(&[dense_ff, hidden]));
            w.insert(
                format!("{mlp}.down_proj.weight"),
                filled(&[hidden, dense_ff]),
            );
        }
    }
    w
}

fn quantize_attention_block(args: &ModelArgs, weights: &mut WeightMap, layer: usize, cols: i32) {
    let hidden = args.hidden_size as i32;
    let packed_in = hidden * args.bits() / 32;
    for (name, rows) in [
        ("query_key_value", args.qkv_out_features() as i32),
        ("dense", hidden),
    ] {
        let prefix = format!("model.layers.{layer}.attention.{name}");
        weights.insert(format!("{prefix}.weight"), ones(&[rows, packed_in]));
        weights.insert(format!("{prefix}.scales"), filled(&[rows, cols]));
        weights.insert(format!("{prefix}.biases"), filled(&[rows, cols]));
    }
}

fn ling_lite_shape_signature(args: &ModelArgs) -> WeightMap {
    let hidden = args.hidden_size as i32;
    let vocab = args.vocab_size as i32;
    let qkv = args.qkv_out_features() as i32;
    let q_size = (args.num_attention_heads * args.head_dim()) as i32;
    let moe = args.moe_intermediate_size() as i32;
    let shared = args.shared_expert_intermediate_size() as i32;
    assert_eq!((qkv, hidden), (3072, 2048));
    assert_eq!((moe, shared), (1408, 2816));
    let mut w = WeightMap::new();
    w.insert(
        "model.word_embeddings.weight".into(),
        lazy(&[vocab, hidden]),
    );
    w.insert("model.norm.weight".into(), lazy(&[hidden]));
    w.insert("lm_head.weight".into(), lazy(&[vocab, hidden]));
    for layer in 0..args.num_hidden_layers {
        let p = format!("model.layers.{layer}");
        w.insert(format!("{p}.input_layernorm.weight"), lazy(&[hidden]));
        w.insert(
            format!("{p}.post_attention_layernorm.weight"),
            lazy(&[hidden]),
        );
        w.insert(
            format!("{p}.attention.query_key_value.weight"),
            lazy(&[qkv, hidden]),
        );
        w.insert(
            format!("{p}.attention.dense.weight"),
            lazy(&[hidden, q_size]),
        );
        let mlp = format!("{p}.mlp");
        w.insert(
            format!("{mlp}.gate.weight"),
            lazy(&[args.num_experts() as i32, hidden]),
        );
        for expert in 0..args.num_experts() {
            let e = format!("{mlp}.experts.{expert}");
            w.insert(format!("{e}.gate_proj.weight"), lazy(&[moe, hidden]));
            w.insert(format!("{e}.up_proj.weight"), lazy(&[moe, hidden]));
            w.insert(format!("{e}.down_proj.weight"), lazy(&[hidden, moe]));
        }
        let s = format!("{mlp}.shared_experts");
        w.insert(format!("{s}.gate_proj.weight"), lazy(&[shared, hidden]));
        w.insert(format!("{s}.up_proj.weight"), lazy(&[shared, hidden]));
        w.insert(format!("{s}.down_proj.weight"), lazy(&[hidden, shared]));
    }
    w
}

fn router_args(num_experts: usize, top_k: usize) -> ModelArgs {
    let mut args = tiny_args();
    args.hidden_size = num_experts;
    args.num_attention_heads = 1;
    args.num_key_value_heads = Some(1);
    args.num_experts = Some(num_experts);
    args.num_experts_per_tok = top_k;
    args.norm_topk_prob = false;
    args
}

fn lazy(shape: &[i32]) -> Vec<i32> {
    shape.to_vec()
}

fn ones(shape: &[i32]) -> Vec<i32> {
    shape.to_vec()
}

fn filled(shape: &[i32]) -> Vec<i32> {
    shape.to_vec()
}

#[test]
fn parses_the_real_ling_lite_config() {
    let args = ling_lite();
    assert_eq!(args.model_type, "bailing_moe");
    assert_eq!(args.hidden_size, 2048);
    assert_eq!(args.num_hidden_layers, 28);
    assert_eq!(args.num_attention_heads, 16);
    assert_eq!(args.num_key_value_heads, Some(4));
    assert_eq!(args.num_kv_heads(), 4);
    assert_eq!(args.intermediate_size, 1408);
    assert_eq!(args.moe_intermediate_size, Some(1408));
    assert_eq!(args.moe_intermediate_size(), 1408);
    assert_eq!(args.num_experts, Some(64));
    assert_eq!(args.num_experts(), 64);
    assert_eq!(args.num_shared_experts, 2);
    assert_eq!(args.num_experts_per_tok, 6);
    assert!(args.norm_topk_prob);
    assert_eq!(args.first_k_dense_replace, 0);
    assert_eq!(args.max_position_embeddings, 32_768);
    assert_eq!(args.vocab_size, 126_464);
    assert!(!args.use_bias);
    assert!(!args.use_qkv_bias);
    assert!(!args.norm_head);
    assert!(!args.norm_softmax);
    assert!(!args.use_qk_norm);
    assert!(!args.tie_word_embeddings);
    assert!((value_of(&args.rms_norm_eps) - 1e-6).abs() < 1e-12);
    assert!((value_of(&args.rope_theta) - 600_000.0).abs() < 1e-3);
    assert!(args.rope_scaling.is_none());
    assert!(args.quantization.is_none());
    assert_eq!(args.eos_token_ids(), vec![126_081]);
    assert_eq!(args.head_dim(), 128, "2048 / 16");
    assert!(args.has_routed_experts());
    assert!(args.has_shared_expert());
    assert!(args.is_moe_layer(0));
    assert!(args.is_moe_layer(27));
    check_config(&args).expect("the real config must validate");
}

#[test]
fn config_defaults_reproduce_the_upstream_routing_defaults() {
    let args = ling_lite();
    assert!(
        !args.moe_router_enable_expert_bias,
        "upstream default False"
    );
    assert!(
        args.moe_router_enable_routed_scaling,
        "upstream default True"
    );
    assert!(
        (value_of(&args.routed_scaling_factor) - 1.0).abs() < 1e-12,
        "default 1.0"
    );
    assert_eq!(
        args.score_function, "softmax",
        "upstream default \"softmax\""
    );
    assert_eq!(args.n_group, 1, "upstream default 1");
    assert_eq!(args.topk_group, 4, "upstream default 4");
    assert_eq!(args.moe_shared_expert_intermediate_size, None);
    assert!(
        args.moe_router_enable_shared_expert,
        "upstream default True"
    );
    assert_eq!(args.score_function(), ScoreFunction::Softmax);
    assert_ne!(args.score_function(), ScoreFunction::Sigmoid);
    let bare: ModelArgs = parse(
        r#"{"hidden_size": 64, "num_hidden_layers": 1, "num_attention_heads": 4,
            "intermediate_size": 128, "vocab_size": 32}"#,
    )
    .expect("a minimal config parses");
    assert_eq!(bare.model_type, "bailing_moe");
    assert!(!bare.moe_router_enable_expert_bias);
    assert!(bare.moe_router_enable_routed_scaling);
    assert!((value_of(&bare.routed_scaling_factor) - 1.0).abs() < 1e-12);
    assert_eq!(bare.score_function(), ScoreFunction::Softmax);
    assert_eq!(bare.n_group, 1);
    assert_eq!(bare.topk_group, 4);
    assert_eq!(bare.moe_shared_expert_intermediate_size, None);
    assert!(bare.moe_router_enable_shared_expert);
    assert_eq!(bare.num_experts, None);
    assert!(!bare.has_routed_experts());
    assert!(!bare.is_moe_layer(0));
    assert!(!bare.has_shared_expert());
    assert_eq!(bare.rope_dims(), bare.head_dim() as i32);
    check_config(&bare).expect("a minimal config validates");
}

#[test]
fn token_id_fields_accept_a_scalar_or_a_list() {
    let args = ling_lite();
    assert!(matches!(args.eos_token_id, Some(TokenIdField::Single(_))));
    assert_eq!(args.eos_token_ids(), vec![126_081]);
    let listed: ModelArgs = parse(
        r#"{"hidden_size": 64, "num_hidden_layers": 1, "num_attention_heads": 4,
            "intermediate_size": 128, "vocab_size": 32, "eos_token_id": [126081, 126080]}"#,
    )
    .expect("parses");
    assert!(matches!(
        listed.eos_token_id,
        Some(TokenIdField::Multiple(_))
    ));
    assert_eq!(listed.eos_token_ids(), vec![126_081, 126_080]);
    let bare: ModelArgs = parse(
        r#"{"hidden_size": 64, "num_hidden_layers": 1, "num_attention_heads": 4,
            "intermediate_size": 128, "vocab_size": 32}"#,
    )
    .expect("parses");
    assert!(bare.eos_token_ids().is_empty());
}

#[test]
fn an_unknown_score_function_is_rejected_rather_than_silently_defaulted() {
    let mut args = ling_lite();
    args.score_function = "sigmoid".to_string();
    assert_eq!(args.score_function(), ScoreFunction::Sigmoid);
    check_config(&args).expect("sigmoid is a real Bailing option");
    args.score_function = "softmax".to_string();
    assert_eq!(args.score_function(), ScoreFunction::Softmax);
    check_config(&args).expect("softmax is the default");
    for spelling in ["relu", "Softmax", "", "top_k"] {
        args.score_function = spelling.to_string();
        let err = check_config(&args)
            .expect_err(&format!("score_function {spelling:?} must be rejected"));
        assert!(err.contains("score_function"), "unhelpful error: {err}");
    }
}

#[test]
fn the_fused_qkv_split_is_uneven_under_grouped_query_attention() {
    let args = ling_lite();
    assert_eq!(args.qkv_out_features(), 3072);
    assert_eq!(args.qkv_split_offsets(), (2048, 2560));
    let (k_start, v_start) = args.qkv_split_offsets();
    assert_eq!(k_start, 16 * 128);
    assert_eq!(v_start - k_start, 4 * 128);
    assert_eq!(args.qkv_out_features() - v_start, 4 * 128);
    let even = args.qkv_out_features() / 3;
    assert_ne!(k_start, even);
    assert_ne!(v_start, 2 * even);
    let mut mha = ling_lite();
    mha.num_key_value_heads = Some(16);
    assert_eq!(mha.qkv_out_features(), 3 * 2048);
    assert_eq!(mha.qkv_split_offsets(), (2048, 4096));
}

#[test]
fn the_shared_expert_is_one_wide_mlp_of_num_shared_experts_times_the_expert_width() {
    let args = ling_lite();
    assert_eq!(args.shared_expert_intermediate_size(), 2816);
    assert_ne!(
        args.shared_expert_intermediate_size(),
        args.moe_intermediate_size(),
        "a single expert-width MLP would be the `num_shared_experts == 1` case"
    );
    let mut explicit = ling_lite();
    explicit.moe_shared_expert_intermediate_size = Some(512);
    assert_eq!(explicit.shared_expert_intermediate_size(), 1024);
    let mut disabled = ling_lite();
    disabled.moe_router_enable_shared_expert = false;
    assert!(!disabled.has_shared_expert());
    let mut none = ling_lite();
    none.num_shared_experts = 0;
    assert!(!none.has_shared_expert());
    assert!(args.has_shared_expert());
}

#[test]
fn the_rotary_width_is_the_whole_head_unless_the_config_narrows_it() {
    let mut args = ling_lite();
    assert_eq!(args.rope_dims(), 128, "the full head width");
    args.partial_rotary_factor = single(0.5);
    assert_eq!(args.rope_dims(), 64);
    check_config(&args).expect("half a 128-wide head is even");
    args.rotary_dim = Some(32);
    assert_eq!(args.rope_dims(), 32);
    check_config(&args)
        .expect("32 is even and fits a 128-wide head");
}

#[test]
fn the_dense_prefix_is_the_layers_below_first_k_dense_replace() {
    let mut args = ling_lite();
    args.first_k_dense_replace = 3;
    assert!(!args.is_moe_layer(0));
    assert!(!args.is_moe_layer(2));
    assert!(args.is_moe_layer(3));
    assert!(args.is_moe_layer(27));
    check_config(&args).expect("3 of 28 layers dense is ordinary");
    args.first_k_dense_replace = 29;
    let err = check_config(&args).expect_err("prefix past the stack");
    assert!(err.contains("first_k_dense_replace"), "{err}");
}

#[test]
fn router_prefix_resolves_both_checkpoint_spellings_and_names_both_when_neither_exists() {
    let mut raw = WeightMap::new();
    raw.insert("model.layers.0.mlp.gate.weight".into(), ones(&[4, 8]));
    assert_eq!(
        router_prefix(&raw, "model.layers.0.mlp").unwrap(),
        "model.layers.0.mlp.gate"
    );
    let mut converted = WeightMap::new();
    converted.insert(
        "model.layers.0.mlp.gate.gate_proj.weight".into(),
        ones(&[4, 8]),
    );
    assert_eq!(
        router_prefix(&converted, "model.layers.0.mlp").unwrap(),
        "model.layers.0.mlp.gate.gate_proj"
    );
    let err = router_prefix(&WeightMap::new(), "model.layers.0.mlp")
        .expect_err("no router weight anywhere");
    assert!(err.contains("model.layers.0.mlp.gate.weight"), "{err}");
    assert!(
        err.contains("model.layers.0.mlp.gate.gate_proj.weight"),
        "{err}"
    );
}

#[test]
fn config_validation_rejects_grouped_routing_that_would_index_out_of_range() {
    let base = ling_lite();
    let cases: [(fn(&mut ModelArgs), &str); 7] = [
        (|a: &mut ModelArgs| a.n_group = 0, "n_group"),
        (
            |a: &mut ModelArgs| {
                a.n_group = 4;
                a.topk_group = 4;
            },
            "topk_group",
        ),
        (
            |a: &mut ModelArgs| {
                a.n_group = 4;
                a.topk_group = 5;
            },
            "topk_group",
        ),
        (
            |a: &mut ModelArgs| {
                a.n_group = 4;
                a.topk_group = 0;
            },
            "topk_group",
        ),
        (
            |a: &mut ModelArgs| {
                a.n_group = 5;
                a.topk_group = 2;
            },
            "divisible",
        ),
        (
            |a: &mut ModelArgs| {
                a.n_group = 64;
                a.topk_group = 2;
            },
            "at least 2",
        ),
        (
            |a: &mut ModelArgs| a.num_experts_per_tok = 65,
            "num_experts_per_tok",
        ),
    ];
    for (mutate, expected) in cases {
        let mut args = base.clone();
        mutate(&mut args);
        let err = check_config(&args)
            .expect_err("a hostile routing parameter must be rejected");
        assert!(err.contains(expected), "unhelpful error: {err}");
    }
    let mut zero_k = base.clone();
    zero_k.num_experts_per_tok = 0;
    assert!(
        check_config(&zero_k)
            .expect_err("zero experts per token")
            .contains("num_experts_per_tok")
    );
    for factor in [f32::NAN, f32::INFINITY, f32::NEG_INFINITY] {
        let mut args = base.clone();
        args.routed_scaling_factor = single(factor);
        assert!(
            check_config(&args)
                .expect_err("a non-finite routed_scaling_factor")
                .contains("routed_scaling_factor")
        );
    }
    for (n_group, topk_group) in [(1usize, 4usize), (8, 4), (4, 1), (2, 1), (16, 15)] {
        let mut args = base.clone();
        args.n_group = n_group;
        args.topk_group = topk_group;
        check_config(&args).unwrap_or_else(|e| {
            panic!("n_group {n_group} / topk_group {topk_group} must be accepted: {e}")
        });
    }
}

#[test]
fn validate_weights_rejects_an_expert_bias_of_the_wrong_width() {
    let mut args = tiny_args();
    args.moe_router_enable_expert_bias = true;
    let mut weights = tiny_weights(&args);
    weights.insert(
        "model.layers.0.mlp.gate.expert_bias".into(),
        ones(&[args.num_experts() as i32 + 1]),
    );
    let err = check_weights(&weights, &args)
        .expect_err("a bias that is not one value per expert");
    assert!(err.contains("expert_bias"), "{err}");
    weights.insert(
        "model.layers.0.mlp.gate.expert_bias".into(),
        ones(&[args.num_experts() as i32]),
    );
    check_weights(&weights, &args).unwrap();
}

#[test]
fn norm_softmax_true_is_rejected_rather_than_silently_ignored() {
    let mut args = ling_lite();
    assert!(!args.norm_softmax, "the real checkpoint clears it");
    check_config(&args).unwrap();
    args.norm_softmax = true;
    let err = check_config(&args)
        .expect_err("norm_softmax: true must be rejected");
    assert!(err.contains("norm_softmax"), "{err}");
}

#[test]
fn config_validation_rejects_impossible_architecture_scalars() {
    let base = ling_lite();
    let cases: [(fn(&mut ModelArgs), &str); 12] = [
        (
            |a: &mut ModelArgs| a.num_attention_heads = 0,
            "num_attention_heads",
        ),
        (
            |a: &mut ModelArgs| a.num_attention_heads = 1 << 20,
            "num_attention_heads",
        ),
        (|a: &mut ModelArgs| a.hidden_size = 0, "hidden_size"),
        (|a: &mut ModelArgs| a.hidden_size = 1 << 20, "hidden_size"),
        (|a: &mut ModelArgs| a.hidden_size = 2050, "divisible"),
        (
            |a: &mut ModelArgs| a.num_key_value_heads = Some(0),
            "num_key_value_heads",
        ),
        (
            |a: &mut ModelArgs| a.num_key_value_heads = Some(17),
            "num_key_value_heads",
        ),
        (
            |a: &mut ModelArgs| a.num_key_value_heads = Some(5),
            "divisible",
        ),
        (
            |a: &mut ModelArgs| a.num_hidden_layers = 0,
            "num_hidden_layers",
        ),
        (
            |a: &mut ModelArgs| a.num_hidden_layers = usize::MAX,
            "num_hidden_layers",
        ),
        (|a: &mut ModelArgs| a.vocab_size = 0, "vocab_size"),
        (
            |a: &mut ModelArgs| a.max_position_embeddings = 1 << 30,
            "max_position_embeddings",
        ),
    ];
    for (mutate, expected) in cases {
        let mut args = base.clone();
        mutate(&mut args);
        let err = check_config(&args)
            .expect_err("an impossible scalar must be rejected");
        assert!(err.contains(expected), "unhelpful error: {err}");
    }
    for mutate in [
        (|a: &mut ModelArgs| a.intermediate_size = usize::MAX) as fn(&mut ModelArgs),
        |a: &mut ModelArgs| a.intermediate_size = 0,
        |a: &mut ModelArgs| a.moe_intermediate_size = Some(usize::MAX),
        |a: &mut ModelArgs| a.moe_intermediate_size = Some(0),
    ] {
        let mut args = base.clone();
        mutate(&mut args);
        assert!(
            check_config(&args)
                .expect_err("an impossible FFN width")
                .contains("intermediate_size")
        );
    }
    let mut overflow = base.clone();
    overflow.moe_shared_expert_intermediate_size = Some(usize::MAX);
    assert!(
        check_config(&overflow)
            .expect_err("an overflowing shared width")
            .contains("shared")
    );
    let mut wide = base.clone();
    wide.moe_shared_expert_intermediate_size = Some(1 << 21);
    wide.num_shared_experts = 4;
    assert!(
        check_config(&wide)
            .expect_err("a shared width past the ceiling")
            .contains("shared")
    );
    let mut many = base.clone();
    many.num_shared_experts = 1 << 20;
    assert!(
        check_config(&many)
            .expect_err("too many shared experts")
            .contains("num_shared_experts")
    );
    let mut experts = base.clone();
    experts.num_experts = Some(1 << 20);
    assert!(
        check_config(&experts)
            .expect_err("too many experts")
            .contains("num_experts")
    );
}

#[test]
fn the_zero_checks_run_before_the_divisibility_checks() {
    let mut args = ling_lite();
    args.hidden_size = 0;
    args.num_attention_heads = 0;
    assert!(0usize.is_multiple_of(0), "the trap this test exists for");
    let err = check_config(&args)
        .expect_err("zero heads and zero width");
    assert!(err.contains("num_attention_heads"), "{err}");
    let mut args = ling_lite();
    args.num_key_value_heads = Some(0);
    let err = check_config(&args).expect_err("zero KV heads");
    assert!(err.contains("num_key_value_heads"), "{err}");
    let mut args = ling_lite();
    args.num_experts = Some(0);
    assert!(!args.has_routed_experts());
    check_config(&args)
        .expect("no routed experts at all is a dense model, not an error");
}

#[test]
fn config_validation_rejects_rope_parameters_mlx_would_throw_on() {
    let base = ling_lite();
    for factor in [f32::NAN, f32::INFINITY, f32::NEG_INFINITY] {
        let mut args = base.clone();
        args.partial_rotary_factor = single(factor);
        assert!(
            check_config(&args)
                .expect_err("a non-finite partial_rotary_factor")
                .contains("partial_rotary_factor")
        );
    }
    for factor in [0.0f32, -0.5, 1.5, 0.001] {
        let mut args = base.clone();
        args.partial_rotary_factor = single(factor);
        check_config(&args)
            .expect_err(&format!("partial_rotary_factor {factor} must be rejected"));
    }
    let mut odd = base.clone();
    odd.partial_rotary_factor = single(3.0 / 128.0);
    assert_eq!(odd.rope_dims(), 3);
    assert!(
        check_config(&odd)
            .expect_err("an odd rotary width")
            .contains("even")
    );
    for dims in [0usize, 3, 129, usize::MAX] {
        let mut args = base.clone();
        args.rotary_dim = Some(dims);
        check_config(&args)
            .expect_err(&format!("rotary_dim {dims} must be rejected"));
    }
    for theta in [0.0f32, -600_000.0, f32::NAN, f32::INFINITY] {
        let mut args = base.clone();
        args.rope_theta = single(theta);
        assert!(
            check_config(&args)
                .expect_err("a bad rope_theta")
                .contains("rope_theta")
        );
    }
    let mut full = base.clone();
    full.partial_rotary_factor = single(1.0);
    assert_eq!(full.rope_dims(), 128);
    check_config(&full).unwrap();
    let mut narrow = base.clone();
    narrow.rotary_dim = Some(2);
    check_config(&narrow).unwrap();
}

#[test]
fn config_validation_rejects_an_rms_norm_eps_that_would_nan_every_hidden_state() {
    for eps in [0.0f32, -1e-6, f32::NAN, f32::INFINITY, f32::NEG_INFINITY] {
        let mut args = ling_lite();
        args.rms_norm_eps = single(eps);
        assert!(
            check_config(&args)
                .expect_err("a bad rms_norm_eps")
                .contains("rms_norm_eps")
        );
    }
    for eps in [1e-6f32, 1e-12, 1e-5, 1.0] {
        let mut args = ling_lite();
        args.rms_norm_eps = single(eps);
        check_config(&args)
            .unwrap_or_else(|e| panic!("rms_norm_eps {eps} is ordinary and must be accepted: {e}"));
    }
}

#[test]
fn config_validation_rejects_a_quantization_block_that_would_abort_an_mlx_kernel() {
    for (group_size, bits, expected) in [
        (64, 0, "bits"),
        (64, -4, "bits"),
        (64, 33, "bits"),
        (0, 4, "group_size"),
        (-64, 4, "group_size"),
    ] {
        let mut args = ling_lite();
        args.quantization = Some(Quantization { group_size, bits });
        assert!(
            check_config(&args)
                .expect_err("a hostile quantization block")
                .contains(expected)
        );
    }
    for (group_size, bits) in [(32, 4), (64, 4), (128, 4), (64, 8), (64, 6), (16, 4)] {
        let mut args = ling_lite();
        args.quantization = Some(Quantization { group_size, bits });
        check_config(&args).unwrap();
        assert_eq!(args.group_size(), group_size);
        assert_eq!(args.bits(), bits);
    }
}

#[test]
fn config_validation_rejects_a_rope_scaling_block_this_loader_does_not_implement() {
    let scaled: ModelArgs = parse(
        r#"{"hidden_size": 2048, "num_hidden_layers": 28, "num_attention_heads": 16,
            "intermediate_size": 1408, "vocab_size": 126464,
            "rope_scaling": {"rope_type": "yarn", "factor": 4.0}}"#,
    )
    .expect("parses");
    let err = check_config(&scaled)
        .expect_err("a yarn rope_scaling block must be rejected");
    assert!(err.contains("rope_scaling"), "{err}");
    for block in [
        "null",
        "{}",
        r#"{"rope_type": "default"}"#,
        r#"{"type": "default"}"#,
    ] {
        let args: ModelArgs = parse(&format!(
            r#"{{"hidden_size": 2048, "num_hidden_layers": 28, "num_attention_heads": 16,
                 "intermediate_size": 1408, "vocab_size": 126464, "rope_scaling": {block}}}"#
        ))
        .expect("parses");
        check_config(&args)
            .unwrap_or_else(|e| panic!("rope_scaling {block} must be accepted: {e}"));
    }
}

#[test]
fn validate_weights_accepts_the_real_ling_lite_shape_signature() {
    let args = ling_lite();
    check_config(&args).unwrap();
    let weights = ling_lite_shape_signature(&args);
    assert_eq!(weights.len(), 28 * 200 + 3, "5603 tensors, as shipped");
    check_weights(&weights, &args)
        .expect("the real Ling-lite-1.5 shape signature must pass every guard");
}

#[test]
fn validate_weights_rejects_projections_and_norms_that_disagree_with_the_config() {
    let args = tiny_args();
    let hidden = args.hidden_size as i32;
    let qkv = args.qkv_out_features() as i32;
    let cases: [(&str, Vec<i32>, &str); 6] = [
        (
            "model.layers.0.attention.query_key_value.weight",
            ones(&[qkv - 8, hidden]),
            "query_key_value",
        ),
        (
            "model.layers.0.attention.query_key_value.weight",
            ones(&[hidden, qkv]),
            "query_key_value",
        ),
        (
            "model.layers.0.attention.dense.weight",
            ones(&[hidden, hidden * 2]),
            "dense",
        ),
        (
            "model.layers.0.input_layernorm.weight",
            ones(&[hidden + 1]),
            "input_layernorm",
        ),
        ("model.norm.weight", ones(&[hidden, hidden]), "model.norm"),
        (
            "model.layers.0.mlp.shared_experts.down_proj.weight",
            ones(&[hidden, hidden]),
            "shared_experts.down_proj",
        ),
    ];
    assert_ne!(args.shared_expert_intermediate_size(), args.hidden_size);
    for (key, replacement, expected) in cases {
        let mut weights = tiny_weights(&args);
        weights.insert(key.into(), replacement);
        let err = check_weights(&weights, &args)
            .expect_err(&format!("a wrong shape at {key} must be rejected"));
        assert!(err.contains(expected), "unhelpful error for {key}: {err}");
    }
    let mut weights = tiny_weights(&args);
    weights.remove("model.layers.1.attention.dense.weight");
    let err = check_weights(&weights, &args).expect_err("a missing projection");
    assert!(
        err.contains("model.layers.1.attention.dense.weight"),
        "{err}"
    );
}

#[test]
fn validate_weights_checks_every_expert_index_not_only_the_first() {
    let args = tiny_args();
    let last = args.num_experts() - 1;
    let mut weights = tiny_weights(&args);
    weights.remove(&format!("model.layers.0.mlp.experts.{last}.up_proj.weight"));
    let err = check_weights(&weights, &args).expect_err("a missing last expert");
    assert!(err.contains(&format!("experts.{last}.up_proj")), "{err}");
    let mut weights = tiny_weights(&args);
    weights.insert(
        format!("model.layers.0.mlp.experts.{last}.down_proj.weight"),
        ones(&[
            args.hidden_size as i32,
            args.moe_intermediate_size() as i32 + 1,
        ]),
    );
    let err = check_weights(&weights, &args).expect_err("a mis-shaped last expert");
    assert!(err.contains(&format!("experts.{last}.down_proj")), "{err}");
}

#[test]
fn validate_weights_accepts_the_stacked_layout_and_rejects_a_short_one() {
    let args = tiny_args();
    let experts = args.num_experts() as i32;
    let hidden = args.hidden_size as i32;
    let moe = args.moe_intermediate_size() as i32;
    let stacked = |planes: i32| {
        let mut w = tiny_weights(&args);
        for layer in 0..args.num_hidden_layers {
            let mlp = format!("model.layers.{layer}.mlp");
            for expert in 0..args.num_experts() {
                for leaf in ["gate_proj", "up_proj", "down_proj"] {
                    w.remove(&format!("{mlp}.experts.{expert}.{leaf}.weight"));
                }
            }
            w.insert(
                format!("{mlp}.switch_mlp.gate_proj.weight"),
                ones(&[planes, moe, hidden]),
            );
            w.insert(
                format!("{mlp}.switch_mlp.up_proj.weight"),
                ones(&[planes, moe, hidden]),
            );
            w.insert(
                format!("{mlp}.switch_mlp.down_proj.weight"),
                ones(&[planes, hidden, moe]),
            );
        }
        w
    };
    check_weights(&stacked(experts), &args).expect("the converted layout must load");
    check_weights(&stacked(experts + 1), &args).unwrap();
    let err = check_weights(&stacked(experts - 1), &args)
        .expect_err("a stack shorter than num_experts");
    assert!(err.contains("expert planes"), "{err}");
}

#[test]
fn validate_weights_rejects_a_quantized_projection_packed_for_a_different_input_width() {
    let mut args = tiny_args();
    args.quantization = Some(Quantization {
        group_size: 32,
        bits: 4,
    });
    assert_eq!(args.hidden_size as i32 / args.group_size(), 1);
    let mut weights = tiny_weights(&args);
    quantize_attention_block(&args, &mut weights, 0, 1);
    check_weights(&weights, &args).expect("a consistently packed block must load");
    let mut weights = tiny_weights(&args);
    quantize_attention_block(&args, &mut weights, 0, 2);
    let err = check_weights(&weights, &args).expect_err("a mis-packed input width");
    assert!(err.contains("input width"), "{err}");
    let mut weights = tiny_weights(&args);
    quantize_attention_block(&args, &mut weights, 0, 1);
    weights.insert(
        "model.layers.0.attention.dense.biases".into(),
        filled(&[args.hidden_size as i32, 2]),
    );
    let err = check_weights(&weights, &args).expect_err("mis-shaped zero points");
    assert!(err.contains("same shape"), "{err}");
}

#[test]
fn validate_weights_rejects_an_output_head_that_disagrees_with_the_config() {
    let args = tiny_args();
    let hidden = args.hidden_size as i32;
    let vocab = args.vocab_size as i32;
    check_weights(&tiny_weights(&args), &args).expect("the tiny checkpoint must pass");
    let mut narrow = tiny_weights(&args);
    narrow.insert("lm_head.weight".into(), filled(&[vocab, hidden - 8]));
    let err =
        check_weights(&narrow, &args).expect_err("an output head of the wrong width");
    assert!(err.contains("lm_head.weight"), "{err}");
    let mut short = tiny_weights(&args);
    short.insert("lm_head.weight".into(), filled(&[vocab - 4, hidden]));
    assert!(
        check_weights(&short, &args)
            .expect_err("an output head short of vocab_size")
            .contains("lm_head.weight")
    );
    let mut absent = tiny_weights(&args);
    absent.remove("lm_head.weight");
    assert!(
        check_weights(&absent, &args)
            .expect_err("a missing output head")
            .contains("lm_head.weight")
    );
    let mut tied_args = args.clone();
    tied_args.tie_word_embeddings = true;
    let mut tied = tiny_weights(&tied_args);
    tied.remove("lm_head.weight");
    check_weights(&tied, &tied_args).expect("a tied checkpoint ships no lm_head");
    let mut quant_args = tiny_args();
    quant_args.quantization = Some(Quantization {
        group_size: 32,
        bits: 4,
    });
    let packed_in = hidden * quant_args.bits() / 32;
    assert_eq!(hidden / quant_args.group_size(), 1);
    let mut honest = tiny_weights(&quant_args);
    honest.insert("lm_head.weight".into(), ones(&[vocab, packed_in]));
    honest.insert("lm_head.scales".into(), filled(&[vocab, 1]));
    honest.insert("lm_head.biases".into(), filled(&[vocab, 1]));
    check_weights(&honest, &quant_args).expect("a consistently packed head must load");
    let mut mispacked = tiny_weights(&quant_args);
    mispacked.insert("lm_head.weight".into(), ones(&[vocab, packed_in]));
    mispacked.insert("lm_head.scales".into(), filled(&[vocab, 2]));
    mispacked.insert("lm_head.biases".into(), filled(&[vocab, 2]));
    let err = check_weights(&mispacked, &quant_args)
        .expect_err("a head packed for a different input width");
    assert!(err.contains("input width"), "{err}");
    let mut table = tiny_weights(&quant_args);
    table.insert(
        "model.word_embeddings.weight".into(),
        ones(&[vocab, packed_in]),
    );
    table.insert("model.word_embeddings.scales".into(), filled(&[vocab, 2]));
    table.insert("model.word_embeddings.biases".into(), filled(&[vocab, 2]));
    let err = check_weights(&table, &quant_args)
        .expect_err("a token table packed for a different input width");
    assert!(err.contains("input width"), "{err}");
}

fn router_weights(num_experts: i32, expert_bias: bool) -> WeightMap {
    let mut w = WeightMap::new();
    w.insert("mlp.gate.weight".into(), vec![num_experts, num_experts]);
    if expert_bias {
        w.insert("mlp.gate.expert_bias".into(), vec![num_experts]);
    }
    w
}

fn gate(weights: &WeightMap, args: &ModelArgs) -> (BailingMoeGate, Steps) {
    let mut steps = Steps::new();
    let gate = BailingMoeGate::from_weights(weights, args, "mlp", &mut steps).unwrap();
    (gate, steps)
}

fn build(weights: &WeightMap, args: &ModelArgs) -> (BailingMoeModel, Steps) {
    match BailingMoeModel::from_weights(weights, args, &PackingAnswers::new(), None) {
        Build::Ready(model, steps) => (model, steps),
        Build::Refused(e) => panic!("{e}"),
        Build::Ask(r) => panic!("{}", r.prefix),
    }
}

#[test]
fn an_absurd_topk_group_saturates_rather_than_truncating_when_grouping_is_off() {
    let mut args = router_args(4, 2);
    args.n_group = 1;
    args.topk_group = usize::MAX;
    check_config(&args).expect("topk_group is inert while n_group is 1");
    let (gate, _) = gate(&router_weights(4, false), &args);
    assert_eq!(gate.n_group, 1);
    assert_eq!(gate.topk_group, i32::MAX);
    let plan = gate.forward(4);
    assert_eq!((plan.kth, plan.first, plan.stop), (2, 2, -1));
    assert!(plan.groups.is_none());
}

#[test]
fn the_expert_bias_is_zero_filled_when_the_flag_is_set_but_no_tensor_ships() {
    let mut args = router_args(4, 2);
    args.moe_router_enable_expert_bias = true;
    let weights = router_weights(4, false);
    let (biased, steps) = gate(&weights, &args);
    assert_eq!(biased.expert_bias, Some(4));
    assert_eq!(steps.get(1).kind, StepKind::OptionalTensor);
    args.moe_router_enable_expert_bias = false;
    let (plain, _) = gate(&weights, &args);
    assert!(plain.expert_bias.is_none());
    assert_eq!(biased.forward(4).kth, plain.forward(4).kth);
}

#[test]
fn the_expert_bias_is_loaded_when_the_checkpoint_ships_one_and_ignored_when_the_flag_is_clear() {
    let weights = router_weights(4, true);
    let mut args = router_args(4, 2);
    args.moe_router_enable_expert_bias = true;
    let (loaded, steps) = gate(&weights, &args);
    assert!(loaded.expert_bias.is_some());
    assert_eq!(steps.get(1).key, "mlp.gate.expert_bias");
    args.moe_router_enable_expert_bias = false;
    let (ignored, steps) = gate(&weights, &args);
    assert!(ignored.expert_bias.is_none());
    assert_eq!(steps.len(), 1);
}

#[test]
fn router_lookup_is_anchored_against_the_expert_gate_proj() {
    let num_experts = 4;
    let moe_intermediate = 16;
    let hidden = 8;
    assert_ne!(num_experts, moe_intermediate);
    for router_key in [
        "model.layers.0.mlp.gate.weight",
        "model.layers.0.mlp.gate.gate_proj.weight",
    ] {
        let mut w = WeightMap::new();
        w.insert(router_key.into(), ones(&[num_experts, hidden]));
        for expert in 0..num_experts {
            w.insert(
                format!("model.layers.0.mlp.experts.{expert}.gate_proj.weight"),
                ones(&[moe_intermediate, hidden]),
            );
            w.insert(
                format!("model.layers.0.mlp.experts.{expert}.up_proj.weight"),
                ones(&[moe_intermediate, hidden]),
            );
            w.insert(
                format!("model.layers.0.mlp.experts.{expert}.down_proj.weight"),
                ones(&[hidden, moe_intermediate]),
            );
        }
        let prefix = router_prefix(&w, "model.layers.0.mlp").unwrap();
        assert_eq!(prefix, router_key.strip_suffix(".weight").unwrap());
        assert!(
            !prefix.contains(".experts."),
            "the router prefix must never land inside the expert key space: {prefix}"
        );
        assert_eq!(w.get(&format!("{prefix}.weight")).unwrap(), &vec![num_experts, hidden]);
    }
}

#[test]
fn norm_head_is_applied_only_when_the_flag_is_set() {
    let mut args = tiny_args();
    let weights = tiny_weights(&args);
    assert!(!args.norm_head, "the real checkpoint clears it");
    let mut steps = Steps::new();
    load_lm_head(&weights, args.norm_head, "Bailing MoE", &mut steps);
    assert_eq!(steps.get(0).kind, StepKind::Linear);
    args.norm_head = true;
    let mut steps = Steps::new();
    load_lm_head(&weights, args.norm_head, "Bailing MoE", &mut steps);
    assert_eq!(steps.get(0).kind, StepKind::NormalizedHead);
    assert_eq!(steps.get(0).key, "lm_head");
    let mut steps = Steps::new();
    load_lm_head(&WeightMap::new(), true, "Bailing MoE", &mut steps);
    assert_eq!(steps.get(0).kind, StepKind::Refuse);
    assert_eq!(steps.get(0).key, "Weight not found: lm_head.weight");
}

#[test]
fn norm_head_refuses_a_quantized_output_head() {
    let mut args = tiny_args();
    args.norm_head = true;
    args.quantization = Some(Quantization { group_size: 32, bits: 4 });
    let mut weights = tiny_weights(&args);
    let vocab = args.vocab_size as i32;
    let cols = args.hidden_size as i32 / args.group_size();
    let packed_in = args.hidden_size as i32 * args.bits() / 32;
    weights.insert("lm_head.weight".into(), ones(&[vocab, packed_in]));
    weights.insert("lm_head.scales".into(), filled(&[vocab, cols]));
    weights.insert("lm_head.biases".into(), filled(&[vocab, cols]));
    let mut steps = Steps::new();
    load_lm_head(&weights, args.norm_head, "Bailing MoE", &mut steps);
    assert_eq!(steps.get(0).kind, StepKind::Refuse);
    let err = &steps.get(0).key;
    assert!(err.contains("norm_head"), "{err}");
    assert!(err.contains("quantized"), "{err}");
    args.norm_head = false;
    let mut steps = Steps::new();
    load_lm_head(&weights, args.norm_head, "Bailing MoE", &mut steps);
    assert_eq!(steps.get(0).kind, StepKind::Linear);
}

#[test]
fn a_dense_prefix_layer_is_a_plain_mlp_and_the_rest_are_sparse() {
    let mut args = tiny_args();
    args.first_k_dense_replace = 1;
    let (model, _) = build(&tiny_weights(&args), &args);
    assert!(matches!(model.layers[0].mlp, FeedForward::Dense(_)));
    assert!(matches!(model.layers[1].mlp, FeedForward::Sparse(_)));
}

#[test]
fn bailing_routed_scaling_flag_is_reported() {
    let mut args = ling_lite();
    assert!(!args.routed_scaling_flag_is_ignored_observably());
    assert!(args.warn_on_ignored_routed_scaling_flag().is_none());
    args.moe_router_enable_routed_scaling = false;
    assert!(!args.routed_scaling_flag_is_ignored_observably());
    args.routed_scaling_factor = single(2.5);
    assert!(args.routed_scaling_flag_is_ignored_observably());
    let warning = args.warn_on_ignored_routed_scaling_flag().unwrap();
    assert!(warning.ends_with("Routed expert weights will be scaled by 2.5."), "{warning}");
    args.moe_router_enable_routed_scaling = true;
    assert!(!args.routed_scaling_flag_is_ignored_observably());
}

#[test]
fn bailing_tiny_model_is_laid_out() {
    let args = tiny_args();
    let (model, steps) = build(&tiny_weights(&args), &args);
    assert_eq!(model.num_layers(), args.num_hidden_layers);
    assert_eq!(model.eos_token_ids, vec![19]);
    assert!(!model.tied);
    assert_eq!(steps.get(0).key, "model.word_embeddings");
    assert_eq!(steps.get(1).key, "model.layers.0.attention.query_key_value");
    assert_eq!(steps.get(3).key, "model.layers.0.mlp.gate");
    assert_eq!(steps.get(steps.len() - 1).key, "lm_head");
    let (cut, heads) = model.layers[0].attention.forward(&vec![1, 5, 32], 3);
    assert_eq!((cut.q_end, cut.k_end, cut.v_end), (32, 48, 64));
    assert_eq!((heads.q_heads, heads.kv_heads, heads.head_dim, heads.width), (4, 2, 8, 32));
    let rope = heads.rope.unwrap();
    assert_eq!((rope.dims, rope.offset), (8, 3));
}

#[test]
fn bailing_transposed_projection_gets_a_hint() {
    let args = tiny_args();
    let mut weights = tiny_weights(&args);
    weights.insert("model.layers.0.attention.query_key_value.weight".into(), ones(&[32, 64]));
    assert_eq!(
        check_weights(&weights, &args).unwrap_err(),
        "unexpected model.layers.0.attention.query_key_value.weight shape [32, 64]: expected 64 rows. That is the [in, out] orientation; Bailing builds every projection with nn.Linear, so a genuine checkpoint is already [out, in] and must not be transposed."
    );
    let mut weights = tiny_weights(&args);
    weights.insert("model.layers.0.attention.query_key_value.bias".into(), ones(&[63]));
    assert_eq!(
        check_weights(&weights, &args).unwrap_err(),
        "unexpected model.layers.0.attention.query_key_value.bias shape [63]: expected [64]"
    );
}

#[test]
fn bailing_rotary_widths_match_single_precision() {
    let mut args = ling_lite();
    let factors = [
        0.0f32, -0.0, 1.0, 0.5, 0.1, 0.3, 0.7, 1.5, -0.5, 3.0 / 128.0, 1e-30, 1e30, -1e30, f32::MIN_POSITIVE,
        f32::MAX, f32::NAN, f32::INFINITY, f32::NEG_INFINITY, 1e-45, 16777215.0, 0.99999994, 2147483500.0,
    ];
    for hidden in [16usize, 48, 2048, 65536, 1 << 28, (1 << 30) + 48, 0, usize::MAX / 16 * 16, 268435472] {
        args.hidden_size = hidden;
        for factor in factors {
            args.partial_rotary_factor = single(factor);
            let expected = (factor * args.head_dim() as f32) as i32;
            assert_eq!(args.rope_dims(), expected, "{factor} of {}", args.head_dim());
        }
    }
}

#[test]
fn bailing_rotary_message_names_both_knobs() {
    let mut args = ling_lite();
    args.rotary_dim = Some(3);
    assert_eq!(
        check_config(&args).unwrap_err(),
        "Bailing MoE rotary width resolves to an odd 3 for a head of width 128; RoPE rotates channel pairs, so the rope `dims` must be even, and MLX throws on an odd one. Check rotary_dim (Some(3)) and partial_rotary_factor (1)."
    );
}

#[test]
fn bailing_route_plan_follows_the_config() {
    let mut args = router_args(8, 2);
    args.n_group = 4;
    args.topk_group = 2;
    args.norm_topk_prob = true;
    args.moe_router_enable_routed_scaling = false;
    args.routed_scaling_factor = single(2.5);
    args.score_function = "sigmoid".to_string();
    let (grouped, _) = gate(&router_weights(8, false), &args);
    let plan = grouped.forward(8);
    assert_eq!(plan.groups, Some((4, 2)));
    assert_eq!((plan.kth, plan.first, plan.stop), (6, 6, -1));
    assert_eq!(plan.scoring, Scoring::Sigmoid);
    assert_eq!((plan.selected_by, plan.weighed_by), (Basis::Score, Basis::Score));
    assert!(!plan.descending);
    assert_eq!(plan.divisor, Some(Divisor::SumPlus(1e-20f32.to_bits())));
    // The scale applies though the flag is cleared.
    assert_eq!(plan.scale, Some(2.5f32.to_bits()));
    assert_eq!(plan.weights_in, Precision::Logits);
    args.num_experts_per_tok = 1;
    let (single_pick, _) = gate(&router_weights(8, false), &args);
    assert_eq!(single_pick.forward(8).divisor, None);
    args.score_function = "softmax".to_string();
    args.moe_router_enable_expert_bias = true;
    let (biased, _) = gate(&router_weights(8, true), &args);
    assert_eq!(biased.forward(8).scoring, Scoring::Softmax);
    assert_eq!(biased.forward(8).selected_by, Basis::BiasedScore);
    assert_eq!(biased.forward(8).weighed_by, Basis::Score);
}

#[test]
fn bailing_passing_checkpoint_serves_every_step() {
    let args = tiny_args();
    let weights = tiny_weights(&args);
    assert!(check_weights(&weights, &args).is_ok());
    let (_, steps) = build(&weights, &args);
    for i in 0..steps.len() {
        let step = steps.get(i);
        assert!(!matches!(step.action(&weights), Action::Fail(_)), "{}", step.key);
        if step.kind == StepKind::Linear {
            assert!(weights.contains_key(&format!("{}.weight", step.key)), "{}", step.key);
        }
    }
}

#[test]
fn bailing_attention_widths_fit_the_checked_projection() {
    let args = tiny_args();
    let (model, _) = build(&tiny_weights(&args), &args);
    let (cut, heads) = model.layers[1].attention.forward(&vec![1, 1, 32], 0);
    assert_eq!(cut.v_end as usize, args.qkv_out_features());
    assert_eq!(heads.rope.unwrap().dims % 2, 0);
}

#[test]
fn bailing_layer_reads_the_router_where_it_is_stored() {
    let args = tiny_args();
    let mut weights = tiny_weights(&args);
    for key in ["model.layers.1.mlp.gate", "model.layers.1.mlp.gate.gate_proj"] {
        weights.insert(format!("{key}.weight"), vec![4, 32]);
        let (model, steps) = build(&weights, &args);
        match &model.layers[1].mlp {
            FeedForward::Sparse(b) => assert_eq!(b.gate.gate_proj, key),
            FeedForward::Dense(_) => panic!("layer 1 is sparse"),
        }
        assert!((0..steps.len()).any(|i| steps.get(i).key == key));
    }
}

#[test]
fn bailing_missing_router_comes_behind_the_attention() {
    let args = tiny_args();
    let mut steps = Steps::new();
    let err = DecoderLayer::from_weights(&WeightMap::new(), &args, 0, &mut steps).unwrap_err();
    assert!(err.contains("router weight not found"), "{err}");
    assert_eq!(steps.get(0).key, "model.layers.0.attention.query_key_value");
    assert_eq!(steps.get(1).key, "model.layers.0.attention.dense");
    assert!((0..steps.len()).all(|i| steps.get(i).key.starts_with("model.layers.0.attention.")));
}
