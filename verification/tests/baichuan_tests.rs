use mlxcel_models::baichuan::{BaichuanConfig, BaichuanModel, ConvStates};
use mlxcel_models::plan::Kernel;
use mlxcel_models::single::Single;
use mlxcel_models::steps::StepKind;

fn single(x: f32) -> Single {
    Single { bits: x.to_bits(), text: x.to_string() }
}

fn config() -> BaichuanConfig {
    BaichuanConfig {
        model_type: "baichuan_m1".to_string(),
        vocab_size: 100,
        hidden_size: 64,
        intermediate_size: 128,
        num_hidden_layers: 3,
        num_attention_heads: 4,
        num_key_value_heads: 2,
        rope_theta: single(100000.0),
        sliding_window: 8,
        sliding_window_layers: vec![1],
        conv_window: 2,
        rms_norm_eps: single(1e-6),
        num_swa_attention_heads: Some(8),
        num_swa_key_value_heads: Some(4),
        tie_word_embeddings: false,
        quantization: None,
    }
}

#[test]
fn baichuan_layers_follow_the_list() {
    let cfg = config();
    let (model, steps) = BaichuanModel::from_weights(&cfg);
    assert_eq!(model.num_layers(), 3);
    assert_eq!(model.eos_token_ids(), vec![2]);
    let full = &model.layers[0].self_attn;
    let sliding = &model.layers[1].self_attn;
    assert_eq!((full.n_heads, full.n_kv_heads, full.head_dim, full.sliding_window), (4, 2, 16, None));
    assert_eq!((sliding.n_heads, sliding.n_kv_heads, sliding.head_dim, sliding.sliding_window), (8, 4, 8, Some(8)));
    assert_eq!(full.attend(3, false).kernel, Kernel::Causal { window: 0 });
    assert_eq!(sliding.attend(3, false).kernel, Kernel::Causal { window: 8 });
    assert_eq!(sliding.attend(1, false).kernel, Kernel::Masked { window: 8 });
    assert_eq!(cfg.head_dim(), 16);
    assert_eq!((cfg.layer_heads(0), cfg.layer_heads(1), cfg.layer_heads(2)), (4, 8, 4));
    assert_eq!(steps.get(1).kind, StepKind::Tensor);
    assert_eq!(steps.get(1).key, "model.layers.0.self_attn.conv_k");
    assert_eq!(steps.get(3).key, "model.layers.0.self_attn.W_pack");
    assert_eq!(steps.get(steps.len() - 1).key, "lm_head");
}

#[test]
fn baichuan_cuts_the_packed_projection() {
    let (model, _) = BaichuanModel::from_weights(&config());
    let plan = model.layers[0].self_attn.forward(&vec![1, 5, 64], 11);
    assert_eq!((plan.cut.q_end, plan.cut.k_end, plan.cut.v_end), (64, 96, 128));
    assert_eq!(plan.keep, (4, 5));
    assert_eq!(plan.heads.rope.unwrap().offset, 11);
}

#[test]
fn baichuan_convolution_is_the_same_in_one_pass_or_two() {
    let (model, _) = BaichuanModel::from_weights(&config());
    let attn = &model.layers[0].self_attn;
    // One head of width one, with a tap for the previous token and one for the token itself.
    let (w0, w1) = (3, 5);
    let tokens = [2, 7, 1, 8, 4];
    let run = |block: &[i32], state: Option<i32>| -> Vec<i32> {
        let plan = attn.custom_convolution(&vec![1, 1, block.len() as i32, 1], state.is_some());
        let mut previous = vec![if plan.carried { state.unwrap() } else { 0 }];
        if let Some(n) = plan.own {
            previous.extend_from_slice(&block[..n as usize]);
        }
        assert_eq!(previous.len(), block.len());
        let taps = [w0, w1];
        let (before, own) = (taps[plan.previous_tap as usize], taps[plan.own_tap as usize]);
        block.iter().zip(&previous).map(|(t, p)| p * before + t * own).collect()
    };
    let whole = run(&tokens, None);
    assert_eq!(whole, vec![10, 41, 26, 43, 44]);
    for cut in 1..tokens.len() {
        let plan = attn.forward(&vec![1, cut as i32, 64], 0);
        let kept = tokens[plan.keep.0 as usize];
        let mut parts = run(&tokens[..cut], None);
        parts.extend(run(&tokens[cut..], Some(kept)));
        assert_eq!(parts, whole);
    }
}

#[test]
fn baichuan_carried_states_are_forgotten() {
    let mut states: ConvStates<u8> = ConvStates::new(2);
    states.states[1] = Some((1, 2));
    states.reset_conv_states();
    assert_eq!(states.states, vec![None, None]);
}
