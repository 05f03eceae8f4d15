use mlxcel_models::bert::{
    load_layer_norm, load_linear, sanitize, sanitize_key, xlm_roberta_position_ids, Activation, BertEmbeddings,
    BertEncoder,
};
use mlxcel_models::bert_config::{BertArgs, BertVariant, ModelType, RawBertArgs};
use mlxcel_models::single::Single;
use mlxcel_models::steps::{StepKind, Steps};
use mlxcel_models::weights::WeightMap;
use serde_json::Value;

const VOCAB: usize = 32;
const HIDDEN: usize = 8;
const HEADS: usize = 2;
const LAYERS: usize = 2;
const INTERMEDIATE: usize = 16;
const MAX_POSITIONS: usize = 24;

fn single(x: f32) -> Single {
    Single { bits: x.to_bits(), text: x.to_string() }
}

fn value_of(s: &Single) -> f32 {
    f32::from_bits(s.bits)
}

fn bare() -> RawBertArgs {
    RawBertArgs {
        vocab_size: 100,
        hidden_size: 8,
        num_hidden_layers: 1,
        num_attention_heads: 2,
        intermediate_size: 16,
        max_position_embeddings: 514,
        type_vocab_size: None,
        layer_norm_eps: None,
        pad_token_id: None,
        hidden_act: None,
        num_labels: None,
        id2label: None,
    }
}

fn tiny_config(variant: BertVariant) -> RawBertArgs {
    RawBertArgs {
        vocab_size: VOCAB,
        hidden_size: HIDDEN,
        num_hidden_layers: LAYERS,
        num_attention_heads: HEADS,
        intermediate_size: INTERMEDIATE,
        max_position_embeddings: MAX_POSITIONS,
        type_vocab_size: Some(match variant {
            BertVariant::Bert => 2,
            BertVariant::XlmRoberta => 1,
        }),
        layer_norm_eps: Some(match variant {
            BertVariant::Bert => single(1e-12),
            BertVariant::XlmRoberta => single(1e-5),
        }),
        pad_token_id: Some(match variant {
            BertVariant::Bert => 0,
            BertVariant::XlmRoberta => 1,
        }),
        hidden_act: Some("gelu".to_string()),
        num_labels: None,
        id2label: None,
    }
}

fn tiny_args(variant: BertVariant) -> BertArgs {
    BertArgs::from_config(&tiny_config(variant), variant).expect("fixture config parses")
}

fn tiny_weights(args: &BertArgs) -> WeightMap {
    let d = args.hidden_size as i32;
    let i = args.intermediate_size as i32;
    let mut w = WeightMap::new();
    w.insert("embeddings.word_embeddings.weight".into(), vec![args.vocab_size as i32, d]);
    w.insert("embeddings.position_embeddings.weight".into(), vec![args.max_position_embeddings as i32, d]);
    w.insert("embeddings.token_type_embeddings.weight".into(), vec![args.type_vocab_size as i32, d]);
    w.insert("embeddings.LayerNorm.weight".into(), vec![d]);
    w.insert("embeddings.LayerNorm.bias".into(), vec![d]);
    for layer in 0..args.num_hidden_layers {
        let base = format!("encoder.layer.{layer}");
        for projection in ["query", "key", "value"] {
            w.insert(format!("{base}.attention.self.{projection}.weight"), vec![d, d]);
            w.insert(format!("{base}.attention.self.{projection}.bias"), vec![d]);
        }
        w.insert(format!("{base}.attention.output.dense.weight"), vec![d, d]);
        w.insert(format!("{base}.attention.output.dense.bias"), vec![d]);
        w.insert(format!("{base}.attention.output.LayerNorm.weight"), vec![d]);
        w.insert(format!("{base}.attention.output.LayerNorm.bias"), vec![d]);
        w.insert(format!("{base}.intermediate.dense.weight"), vec![i, d]);
        w.insert(format!("{base}.intermediate.dense.bias"), vec![i]);
        w.insert(format!("{base}.output.dense.weight"), vec![d, i]);
        w.insert(format!("{base}.output.dense.bias"), vec![d]);
        w.insert(format!("{base}.output.LayerNorm.weight"), vec![d]);
        w.insert(format!("{base}.output.LayerNorm.bias"), vec![d]);
    }
    w
}

fn tiny_encoder(variant: BertVariant) -> BertEncoder {
    let args = tiny_args(variant);
    let weights = tiny_weights(&args);
    BertEncoder::from_weights(&weights, args, &mut Steps::new()).expect("fixture encoder builds")
}

fn keys(weights: &WeightMap) -> Vec<String> {
    let mut out: Vec<String> = (0..weights.slot_count())
        .map(|i| weights.slot_name(i).to_string())
        .filter(|k| weights.contains_key(k))
        .collect();
    out.sort();
    out.dedup();
    out
}

fn named(names: &[&str]) -> WeightMap {
    let mut w = WeightMap::new();
    for name in names {
        w.insert(name.to_string(), vec![1]);
    }
    w
}

fn json(text: &str) -> Value {
    serde_json::from_str(text).unwrap()
}

#[test]
fn sanitize_strips_prefix_and_drops_mlm_and_buffers() {
    for prefix in ["bert.", "roberta."] {
        let raw = named(&[
            &format!("{prefix}embeddings.word_embeddings.weight"),
            &format!("{prefix}embeddings.position_ids"),
            &format!("{prefix}embeddings.LayerNorm.weight"),
            &format!("{prefix}encoder.layer.0.attention.self.query.weight"),
            "cls.predictions.transform.dense.weight",
            "lm_head.dense.weight",
            "pooler.dense.weight",
            "classifier.out_proj.weight",
        ]);
        assert_eq!(
            keys(&sanitize(&raw, false)),
            vec![
                "classifier.out_proj.weight".to_string(),
                "embeddings.LayerNorm.weight".to_string(),
                "embeddings.word_embeddings.weight".to_string(),
                "encoder.layer.0.attention.self.query.weight".to_string(),
            ],
            "prefix {prefix}"
        );
    }
}

#[test]
fn sanitize_keeps_pooler_only_for_the_classifier_head() {
    let raw = || named(&["bert.pooler.dense.weight", "pooler.dense.bias"]);
    assert!(keys(&sanitize(&raw(), false)).is_empty());
    assert_eq!(
        keys(&sanitize(&raw(), true)),
        vec![
            "pooler.dense.bias".to_string(),
            "pooler.dense.weight".to_string()
        ]
    );
}

#[test]
fn sanitize_is_idempotent() {
    let raw = || {
        named(&[
            "roberta.embeddings.word_embeddings.weight",
            "roberta.embeddings.position_ids",
            "roberta.encoder.layer.3.output.LayerNorm.bias",
            "classifier.dense.weight",
        ])
    };
    for keep_pooler in [false, true] {
        let once = sanitize(&raw(), keep_pooler);
        let expected = keys(&once);
        assert_eq!(keys(&sanitize(&once, keep_pooler)), expected);
    }
}

#[test]
fn bert_args_fill_the_variant_defaults() {
    let bert = BertArgs::from_config(&bare(), BertVariant::Bert).unwrap();
    assert_eq!(bert.type_vocab_size, 2);
    assert_eq!(bert.pad_token_id, 0);
    assert!((value_of(&bert.layer_norm_eps) - 1e-12).abs() < 1e-18);
    assert_eq!(bert.hidden_act, "gelu");
    assert_eq!(bert.num_labels, 1);
    assert_eq!(bert.head_dim(), 4);
    assert_eq!(bert.max_sequence_length(), 514);

    let xlmr = BertArgs::from_config(&bare(), BertVariant::XlmRoberta).unwrap();
    assert_eq!(xlmr.type_vocab_size, 1);
    assert_eq!(xlmr.pad_token_id, 1);
    assert!((value_of(&xlmr.layer_norm_eps) - 1e-5).abs() < 1e-10);
    assert_eq!(xlmr.max_sequence_length(), 512);
}

#[test]
fn bert_args_read_num_labels_from_id2label_when_absent() {
    let mut config = tiny_config(BertVariant::XlmRoberta);
    let labels = json(r#"{"0": "yes", "1": "no", "2": "maybe"}"#);
    config.id2label = labels.as_object().map(|m| m.len());
    assert_eq!(
        BertArgs::from_config(&config, BertVariant::XlmRoberta)
            .unwrap()
            .num_labels,
        3
    );
    config.num_labels = Some(1);
    assert_eq!(
        BertArgs::from_config(&config, BertVariant::XlmRoberta)
            .unwrap()
            .num_labels,
        1
    );
}

#[test]
fn bert_args_reject_a_head_count_that_does_not_divide_the_width() {
    let mut config = tiny_config(BertVariant::Bert);
    config.num_attention_heads = 3;
    let err = BertArgs::from_config(&config, BertVariant::Bert).expect_err("8 is not divisible by 3");
    assert!(err.contains("divisible"), "{err}");
}

#[test]
fn bert_variant_maps_from_model_type_and_config() {
    assert_eq!(BertVariant::from_model_type(ModelType::Bert), Some(BertVariant::Bert));
    assert_eq!(BertVariant::from_model_type(ModelType::XlmRoberta), Some(BertVariant::XlmRoberta));
    assert_eq!(BertVariant::from_model_type(ModelType::ModernBert), None);
    assert_eq!(
        BertVariant::from_config(&json(r#"{"model_type": "xlm_roberta"}"#)),
        Some(BertVariant::XlmRoberta)
    );
    assert_eq!(BertVariant::from_config(&json("{}")), None);
    assert_eq!(BertVariant::Bert.weight_prefix(), "bert.");
    assert_eq!(BertVariant::XlmRoberta.weight_prefix(), "roberta.");
}

#[test]
fn xlm_roberta_position_ids_start_after_padding_idx() {
    let input_ids = vec![vec![5, 6, 1, 1]];
    let positions = xlm_roberta_position_ids(&input_ids, 1);
    assert_eq!((positions.len(), positions[0].len()), (1, 4));
    assert_eq!(positions, vec![vec![2, 3, 1, 1]]);
}

#[test]
fn xlm_roberta_position_ids_handle_a_batch_and_a_zero_pad_id() {
    let input_ids = vec![vec![7, 8, 9], vec![4, 5, 0]];
    let positions = xlm_roberta_position_ids(&input_ids, 0);
    assert_eq!(positions, vec![vec![1, 2, 3], vec![1, 2, 0]]);
}

#[test]
fn encoder_rejects_more_tokens_than_the_position_table_addresses() {
    let encoder = tiny_encoder(BertVariant::XlmRoberta);
    let usable = encoder.args().max_sequence_length();
    assert_eq!(usable, MAX_POSITIONS - 2);
    let length = usable + 1;
    let err = encoder.encode(&vec![1, length as i32]).unwrap_err();
    assert!(err.contains("exceed"), "{err}");
    assert!(err.contains("max_position_embeddings"), "{err}");
    assert_eq!(
        err,
        "bert encoder: 23 tokens exceed the 22 positions this checkpoint's absolute position table addresses (max_position_embeddings = 24)"
    );
    assert!(encoder.encode(&vec![1, usable as i32]).is_ok());
}

#[test]
fn encoder_rejects_a_rank_one_input() {
    let encoder = tiny_encoder(BertVariant::Bert);
    let err = encoder.encode(&vec![3]).unwrap_err();
    assert!(err.contains("[B, L]"), "{err}");
    assert_eq!(err, "bert encoder: input_ids must be [B, L], got [3]");
}

#[test]
fn sanitized_keys_keep_what_only_looks_like_a_prefix() {
    assert_eq!(sanitize_key("albert.x", false), Some("albert.x".to_string()));
    assert_eq!(sanitize_key("bertx.y", false), Some("bertx.y".to_string()));
    assert_eq!(sanitize_key("roberta.cls.x", true), None);
    assert_eq!(sanitize_key("bert.embeddings.position_ids.extra", true), None);
    assert_eq!(sanitize_key("encoder.pooler.x", false), Some("encoder.pooler.x".to_string()));
}

#[test]
fn sanitize_keeps_each_shape_with_its_key() {
    let mut raw = WeightMap::new();
    raw.insert("bert.a.weight".into(), vec![2, 3]);
    raw.insert("roberta.b.weight".into(), vec![4]);
    raw.insert("lm_head.weight".into(), vec![9]);
    let clean = sanitize(&raw, false);
    assert_eq!(clean.len(), 2);
    assert_eq!(clean.get("a.weight"), Some(&vec![2, 3]));
    assert_eq!(clean.get("b.weight"), Some(&vec![4]));
}

#[test]
fn zero_labels_and_zero_widths_are_resolved() {
    let mut config = bare();
    config.num_labels = Some(0);
    config.id2label = Some(3);
    assert_eq!(BertArgs::from_config(&config, BertVariant::Bert).unwrap().num_labels, 1);
    config.hidden_size = 0;
    assert_eq!(
        BertArgs::from_config(&config, BertVariant::Bert).unwrap_err(),
        "bert config: hidden_size and num_attention_heads must be non-zero"
    );
    let mut config = bare();
    config.num_attention_heads = 0;
    assert!(BertArgs::from_config(&config, BertVariant::Bert).is_err());
}

#[test]
fn defaults_render_like_the_float_they_hold() {
    for variant in [BertVariant::Bert, BertVariant::XlmRoberta] {
        let eps = variant.default_layer_norm_eps();
        assert_eq!(value_of(&eps).to_string(), eps.text);
    }
}

#[test]
fn a_position_table_smaller_than_its_padding_addresses_nothing() {
    let mut config = bare();
    config.max_position_embeddings = 2;
    config.pad_token_id = Some(5);
    assert_eq!(BertArgs::from_config(&config, BertVariant::XlmRoberta).unwrap().max_sequence_length(), 0);
    config.pad_token_id = Some(-7);
    assert_eq!(BertArgs::from_config(&config, BertVariant::XlmRoberta).unwrap().max_sequence_length(), 1);
}

#[test]
fn activations_are_named_in_any_case() {
    assert_eq!(Activation::from_name("  GELU_new\n"), Ok(Activation::GeluTanh));
    assert_eq!(Activation::from_name("gelu_python"), Ok(Activation::Gelu));
    assert_eq!(Activation::from_name("ReLU"), Ok(Activation::Relu));
    assert_eq!(
        Activation::from_name(" SiLU ").unwrap_err(),
        "bert config: hidden_act `silu` is not supported; expected gelu, gelu_new / gelu_pytorch_tanh or relu"
    );
}

#[test]
fn bert_positions_count_from_zero() {
    let args = tiny_args(BertVariant::Bert);
    let weights = tiny_weights(&args);
    let embeddings = BertEmbeddings::from_weights(&weights, &args, &mut Steps::new());
    assert_eq!(embeddings.position_ids(&vec![vec![5, 0, 5]], 3), vec![vec![0, 1, 2]]);
    assert_eq!(embeddings.segment_ids(None), vec![vec![0]]);
    assert_eq!(embeddings.segment_ids(Some(vec![vec![0, 1, 1]])), vec![vec![0, 1, 1]]);
}

#[test]
fn encoder_loads_its_tensors_in_order() {
    let args = tiny_args(BertVariant::Bert);
    let mut weights = tiny_weights(&args);
    let mut steps = Steps::new();
    let encoder = BertEncoder::from_weights(&weights, args.clone(), &mut steps).unwrap();
    assert_eq!(encoder.layers.len(), LAYERS);
    assert_eq!(steps.len(), 5 + LAYERS * 10);
    assert_eq!(steps.get(0).key, "embeddings.word_embeddings");
    assert_eq!(steps.get(5).key, "encoder.layer.0.attention.self.query");
    assert_eq!(steps.get(9).key, "encoder.layer.0.attention.output.LayerNorm.weight");
    assert_eq!(steps.get(24).key, "encoder.layer.1.output.LayerNorm.bias");

    weights.remove("encoder.layer.1.output.LayerNorm.weight");
    let mut steps = Steps::new();
    BertEncoder::from_weights(&weights, args, &mut steps).unwrap();
    assert_eq!(steps.get(23).kind, StepKind::Refuse);
    assert_eq!(steps.get(23).key, "bert weight not found: encoder.layer.1.output.LayerNorm.weight");
}

#[test]
fn a_layer_norm_may_lack_its_bias() {
    let mut weights = WeightMap::new();
    weights.insert("n.weight".into(), vec![4]);
    let mut steps = Steps::new();
    load_layer_norm(&weights, "n", &mut steps);
    assert_eq!(steps.len(), 1);
    assert_eq!(steps.get(0).kind, StepKind::Tensor);
    assert_eq!(load_linear(Err("gone".to_string())), Err("bert: gone".to_string()));
    assert_eq!(load_linear(Ok(())), Ok(()));
}

#[test]
fn an_unknown_activation_stops_the_load_at_once() {
    let mut args = tiny_args(BertVariant::Bert);
    args.hidden_act = "swish".to_string();
    let weights = tiny_weights(&args);
    let mut steps = Steps::new();
    assert!(BertEncoder::from_weights(&weights, args, &mut steps).is_err());
    assert_eq!(steps.len(), 0);
}

#[test]
fn a_layer_splits_its_width_into_heads() {
    let encoder = tiny_encoder(BertVariant::Bert);
    let plan = encoder.layers[0].forward(&vec![2, 5, 8]);
    assert_eq!((plan.batch, plan.length, plan.q_heads, plan.head_dim, plan.width), (2, 5, 2, 4, 8));
    assert!(plan.rope.is_none());
}

#[test]
fn model_type_must_be_a_string_of_an_object() {
    assert_eq!(BertVariant::from_config(&json(r#"{"model_type": "BERT"}"#)), Some(BertVariant::Bert));
    assert_eq!(BertVariant::from_config(&json(r#"{"model_type": "XLM-Roberta"}"#)), Some(BertVariant::XlmRoberta));
    assert_eq!(BertVariant::from_config(&json(r#"{"model_type": 3}"#)), None);
    assert_eq!(BertVariant::from_config(&json(r#"["model_type"]"#)), None);
    assert_eq!(BertVariant::from_config(&json(r#""bert""#)), None);
    assert_eq!(BertVariant::from_config(&json(r#"{"model_type": "modernbert"}"#)), None);
}

#[test]
fn sanitized_keys_carry_no_prefix_any_more() {
    assert_eq!(sanitize_key("bert.bert.x", false), Some("x".to_string()));
    assert_eq!(sanitize_key("bert.roberta.x", false), Some("x".to_string()));
    assert_eq!(sanitize_key("roberta.bert.bert.pooler.x", true), Some("pooler.x".to_string()));
    assert_eq!(sanitize_key("roberta.bert.bert.pooler.x", false), None);
    assert_eq!(sanitize_key("bert.", false), Some(String::new()));
}

#[test]
fn sanitizing_twice_changes_nothing_on_doubled_prefixes() {
    for keep_pooler in [false, true] {
        let mut raw = WeightMap::new();
        raw.insert("bert.bert.x".into(), vec![2, 3]);
        raw.insert("bert.roberta.encoder.y".into(), vec![4]);
        raw.insert("roberta.roberta.pooler.dense.weight".into(), vec![5]);
        let once = sanitize(&raw, keep_pooler);
        let twice = sanitize(&once, keep_pooler);
        assert_eq!(once.len(), if keep_pooler { 3 } else { 2 });
        assert_eq!(twice.len(), once.len());
        for key in ["x", "encoder.y", "pooler.dense.weight"] {
            assert_eq!(twice.get(key), once.get(key));
        }
        assert_eq!(twice.get("x"), Some(&vec![2, 3]));
        assert_eq!(twice.get("encoder.y"), Some(&vec![4]));
    }
}
