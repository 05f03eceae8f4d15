use mlxcel_models::cohere;
use mlxcel_models::cohere2;
use mlxcel_models::cohere2_moe;
use mlxcel_models::plan::{Basis, Divisor, Kernel, Precision, Scoring};
use mlxcel_models::single::Single;
use mlxcel_models::steps::{StepKind, Steps};
use mlxcel_models::weights::WeightMap;

fn single(x: f32) -> Single {
    Single { bits: x.to_bits(), text: x.to_string() }
}

fn cohere_args() -> cohere::ModelArgs {
    cohere::ModelArgs {
        model_type: "cohere".to_string(),
        hidden_size: 64,
        num_hidden_layers: 2,
        intermediate_size: 128,
        num_attention_heads: 4,
        num_key_value_heads: 2,
        rope_theta: single(10000.0),
        vocab_size: 100,
        layer_norm_eps: single(1e-5),
        logit_scale: single(0.0625),
        attention_bias: false,
        layer_norm_bias: false,
        use_qk_norm: false,
        quantization: None,
    }
}

fn cohere2_args() -> cohere2::Cohere2Config {
    cohere2::Cohere2Config {
        model_type: "cohere2".to_string(),
        hidden_size: 64,
        num_hidden_layers: 8,
        intermediate_size: 128,
        num_attention_heads: 4,
        num_key_value_heads: 2,
        rope_theta: single(10000.0),
        vocab_size: 100,
        layer_norm_eps: single(1e-5),
        logit_scale: single(1.0),
        head_dim: 16,
        sliding_window: 8,
        sliding_window_pattern: None,
        layer_switch: None,
        attention_bias: false,
        layer_norm_bias: false,
        tie_word_embeddings: false,
        use_embedding_sharing: false,
        quantization: None,
        bos_token_id: None,
        eos_token_id: None,
    }
}

fn moe_args() -> cohere2_moe::Cohere2MoeConfig {
    cohere2_moe::Cohere2MoeConfig {
        model_type: "cohere2_moe".to_string(),
        hidden_size: 64,
        head_dim: 16,
        num_hidden_layers: 8,
        intermediate_size: 128,
        num_attention_heads: 4,
        num_key_value_heads: 2,
        rope_theta: cohere2_moe::default_rope_theta(),
        vocab_size: 100,
        layer_norm_eps: cohere2_moe::default_layer_norm_eps(),
        rms_norm_eps: None,
        logit_scale: cohere2_moe::default_logit_scale(),
        attention_bias: false,
        layer_norm_bias: false,
        sliding_window: 8,
        sliding_window_pattern: 4,
        layer_types: None,
        num_experts: 8,
        num_experts_per_tok: 2,
        norm_topk_prob: true,
        moe_gate_act: cohere2_moe::default_moe_gate_act(),
        expert_selection_fn: None,
        moe_num_shared_experts: 1,
        num_shared_experts: None,
        shared_expert_combination_strategy: cohere2_moe::default_shared_combination(),
        first_k_dense_replace: 1,
        prefix_dense_intermediate_size: None,
        prefix_dense_sliding_window_pattern: 1,
        bos_token_id: None,
        eos_token_id: None,
        pad_token_id: None,
        quantization: None,
    }
}

fn keys(steps: &Steps) -> Vec<(StepKind, String)> {
    (0..steps.len()).map(|i| (steps.get(i).kind, steps.get(i).key.clone())).collect()
}

#[test]
fn cohere_model_is_laid_out() {
    let args = cohere_args();
    let (model, steps) = cohere::CohereModel::from_weights(&args);
    assert_eq!(model.num_layers(), 2);
    assert!(model.forward());
    assert_eq!(model.eos_token_ids(), vec![255001]);
    let plan = model.layers[0].self_attn.forward(&vec![1, 4, 64], 5);
    assert_eq!((plan.q_heads, plan.kv_heads, plan.head_dim, plan.width), (4, 2, 16, 64));
    let rope = plan.rope.unwrap();
    assert_eq!((rope.dims, rope.traditional, rope.offset), (16, true, 5));
    let keys = keys(&steps);
    assert_eq!(keys[0], (StepKind::Embedding, "model.embed_tokens".to_string()));
    assert_eq!(keys[keys.len() - 1].1, "model.norm.weight");
    let mut biased = cohere_args();
    biased.layer_norm_bias = true;
    let (_, steps) = cohere::CohereModel::from_weights(&biased);
    assert_eq!(steps.get(steps.len() - 1).key, "model.norm.bias");
    let mut plain = cohere_args();
    plain.logit_scale = single(1.0);
    assert!(!cohere::CohereModel::from_weights(&plain).0.forward());
}

#[test]
fn cohere2_groups_end_in_a_global_layer() {
    let mut args = cohere2_args();
    let sliding: Vec<bool> = (0..8).map(|i| args.is_sliding_window_layer(i)).collect();
    assert_eq!(sliding, vec![true, true, true, false, true, true, true, false]);
    assert_eq!((args.first_sliding(), args.first_global()), (0, 3));
    args.layer_switch = Some(2);
    assert_eq!((args.first_sliding(), args.first_global()), (0, 1));
    args.sliding_window_pattern = Some(1);
    assert_eq!((args.first_sliding(), args.first_global()), (0, 0));
    args.sliding_window_pattern = Some(16);
    assert_eq!(args.first_global(), 15);
    args.sliding_window_pattern = Some(0);
    assert!(args.is_sliding_window_layer(0));
}

#[test]
fn cohere2_prompt_reads_the_newest_window() {
    let args = cohere2_args();
    let (model, steps) = cohere2::Cohere2Model::from_weights(&args);
    let sliding = &model.layers[0].self_attn;
    let global = &model.layers[3].self_attn;
    assert_eq!(sliding.attend(4, 20).keys, Some((12, 20)));
    assert_eq!(sliding.attend(4, 8).keys, None);
    assert_eq!(sliding.attend(4, 20).kernel, Kernel::Masked { window: 8 });
    assert_eq!(sliding.attend(1, 20).keys, None);
    assert_eq!(sliding.attend(1, 20).kernel, Kernel::Causal { window: 8 });
    assert_eq!(global.attend(4, 20).keys, None);
    assert_eq!(global.attend(4, 20).kernel, Kernel::Masked { window: 0 });
    assert!(sliding.forward(&vec![1, 4, 64], 2).rope.unwrap().traditional);
    assert!(global.forward(&vec![1, 4, 64], 2).rope.is_none());
    let masks = model.forward_impl(4, &vec![1, 2, 3, 4, 5, 6, 7, 8]).unwrap();
    assert_eq!((masks.full, masks.sliding), (4, (1, 8)));
    assert!(model.forward_impl(1, &vec![]).is_none());
    assert!(model.takes_sliding_mask(0) && !model.takes_sliding_mask(3));
    assert_eq!(steps.get(1).key, "model.layers.0.self_attn.o_proj");
    assert_eq!(steps.get(2).kind, StepKind::FusedQkv);
    assert_eq!(steps.get(steps.len() - 1).key, "lm_head");
    let mut tied = cohere2_args();
    tied.use_embedding_sharing = true;
    let (_, steps) = cohere2::Cohere2Model::from_weights(&tied);
    assert_eq!(steps.get(steps.len() - 1).key, "model.embed_tokens");
}

#[test]
fn cohere2_eos_ids_come_from_either_form() {
    assert_eq!(cohere2::eos_token_ids(&Some(cohere2::EosTokenId::Single(7))), vec![7]);
    assert_eq!(cohere2::eos_token_ids(&Some(cohere2::EosTokenId::Multiple(vec![1, 2]))), vec![1, 2]);
    assert_eq!(cohere2::eos_token_ids(&None), vec![255001]);
    assert_eq!(cohere2_moe::eos_token_ids(&Some(cohere2_moe::EosTokenId::Single(9))), vec![9]);
    assert_eq!(cohere2_moe::eos_token_ids(&None), vec![255001]);
}

#[test]
fn cohere2_moe_schedule_and_rotation() {
    let mut args = moe_args();
    let sliding: Vec<bool> = (0..8).map(|i| args.is_sliding_window_layer(i)).collect();
    assert_eq!(sliding, vec![false, true, true, false, true, true, true, false]);
    let ropes: Vec<bool> = (0..8).map(|i| args.layer_uses_rope(i)).collect();
    assert_eq!(ropes, vec![true, true, true, false, true, true, true, false]);
    args.prefix_dense_sliding_window_pattern = 4;
    assert!(!args.layer_uses_rope(0));
    args.layer_types = Some(vec!["sliding_attention".to_string(), "full_attention".to_string()]);
    assert!(!args.is_sliding_window_layer(0) && !args.is_sliding_window_layer(1) && !args.is_sliding_window_layer(5));
    args.first_k_dense_replace = 0;
    assert!(args.is_sliding_window_layer(0));
}

#[test]
fn cohere2_moe_names_are_read_in_any_case() {
    let mut args = moe_args();
    assert!(args.gate_is_sigmoid() && args.shared_combine_average());
    args.expert_selection_fn = Some("SoftMax".to_string());
    args.shared_expert_combination_strategy = "SUM".to_string();
    assert!(!args.gate_is_sigmoid() && !args.shared_combine_average());
    args.num_shared_experts = Some(0);
    assert_eq!(args.shared_expert_count(), 0);
    assert_eq!(args.prefix_dense_intermediate(), 128);
    args.prefix_dense_intermediate_size = Some(99);
    assert_eq!(args.prefix_dense_intermediate(), 99);
}

#[test]
fn cohere2_moe_model_is_laid_out() {
    let args = moe_args();
    let mut weights = WeightMap::new();
    let (model, steps) = cohere2_moe::Cohere2MoeModel::from_weights(&weights, &args);
    assert_eq!((model.swa_idx, model.ga_idx), (1, 0));
    assert_eq!(model.norm, cohere2_moe::Cohere2MoeNorm::Layer(args.layer_norm_eps.bits));
    assert_eq!(steps.get(steps.len() - 1).key, "model.embed_tokens");
    assert_eq!(model.head, "model.embed_tokens");
    weights.insert("lm_head.weight".into(), vec![100, 64]);
    let mut rms = moe_args();
    rms.rms_norm_eps = Some(single(1e-6));
    let (model, steps) = cohere2_moe::Cohere2MoeModel::from_weights(&weights, &rms);
    assert_eq!(model.norm, cohere2_moe::Cohere2MoeNorm::Rms(1e-6f32.to_bits()));
    assert_eq!(steps.get(steps.len() - 1).key, "lm_head");
    assert_eq!(model.head, "lm_head");
    assert!(matches!(model.layers[0].ffn, cohere2_moe::Cohere2MoeFFN::Dense(_)));
    let block = match &model.layers[1].ffn {
        cohere2_moe::Cohere2MoeFFN::Sparse(b) => b,
        cohere2_moe::Cohere2MoeFFN::Dense(_) => panic!("layer 1 is sparse"),
    };
    let route = block.route(8);
    assert_eq!((route.kth, route.first, route.stop), (6, 6, 8));
    assert_eq!(route.scoring, Scoring::Sigmoid);
    assert_eq!((route.selected_by, route.weighed_by), (Basis::Logit, Basis::Score));
    assert!(!route.descending);
    assert_eq!(cohere2_moe::router_topk_scores(8, 2, false, false).scoring, Scoring::PreciseSoftmax);
    assert_eq!(route.divisor, Some(Divisor::SumAtLeast(1e-12f32.to_bits())));
    assert_eq!(route.scale, None);
    assert_eq!(route.weights_in, Precision::Single);
    assert_eq!(block.combine_shared_expert(), cohere2_moe::Combination::Average);
    assert_eq!(block.forward(&vec![1, 1, 64]).single_token, true);
    let masks = model.run_layers(3, &vec![10, 20, 30, 40, 50, 60, 70, 80]).unwrap();
    assert_eq!((masks.full, masks.sliding), (10, (20, 8)));
}

#[test]
fn cohere2_moe_prompt_reads_what_its_mask_covers() {
    let args = moe_args();
    let (model, _) = cohere2_moe::Cohere2MoeModel::from_weights(&WeightMap::new(), &args);
    let sliding = &model.layers[1].self_attn;
    assert_eq!(sliding.attend(4, 20, Some(&vec![4, 12])).keys, Some((8, 20)));
    assert_eq!(sliding.attend(4, 20, Some(&vec![])).keys, None);
    assert_eq!(sliding.attend(4, 20, None).keys, None);
    assert_eq!(sliding.attend(1, 20, Some(&vec![4, 12])).kernel, Kernel::Causal { window: 8 });
    let global = &model.layers[0].self_attn;
    assert_eq!(global.attend(4, 20, Some(&vec![4, 12])).keys, None);
}

#[test]
fn cohere2_moe_defaults_render_like_the_float_they_hold() {
    for s in [
        cohere2_moe::default_rope_theta(),
        cohere2_moe::default_layer_norm_eps(),
        cohere2_moe::default_logit_scale(),
    ] {
        assert_eq!(f32::from_bits(s.bits).to_string(), s.text);
    }
}
