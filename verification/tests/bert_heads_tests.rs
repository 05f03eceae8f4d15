use mlxcel_models::bert_config::{BertArgs, BertVariant, RawBertArgs};
use mlxcel_models::bert_heads::{
    dense_quantization, head_linear, quantization, BertEmbeddingModel, BertSequenceClassifier, PoolingMode,
    QuantizationParams,
};
use mlxcel_models::steps::Steps;
use mlxcel_models::weights::WeightMap;
use serde_json::Value;

const HIDDEN: usize = 8;

fn tiny_args(variant: BertVariant) -> BertArgs {
    let raw = RawBertArgs {
        vocab_size: 32,
        hidden_size: HIDDEN,
        num_hidden_layers: 2,
        num_attention_heads: 2,
        intermediate_size: 16,
        max_position_embeddings: 24,
        type_vocab_size: None,
        layer_norm_eps: None,
        pad_token_id: None,
        hidden_act: Some("gelu".to_string()),
        num_labels: None,
        id2label: None,
    };
    BertArgs::from_config(&raw, variant).unwrap()
}

fn head_weights(args: &BertArgs) -> WeightMap {
    let d = args.hidden_size as i32;
    let labels = args.num_labels as i32;
    let mut w = WeightMap::new();
    match args.variant {
        BertVariant::Bert => {
            w.insert("pooler.dense.weight".into(), vec![d, d]);
            w.insert("pooler.dense.bias".into(), vec![d]);
            w.insert("classifier.weight".into(), vec![labels, d]);
            w.insert("classifier.bias".into(), vec![labels]);
        }
        BertVariant::XlmRoberta => {
            w.insert("classifier.dense.weight".into(), vec![d, d]);
            w.insert("classifier.dense.bias".into(), vec![d]);
            w.insert("classifier.out_proj.weight".into(), vec![labels, d]);
            w.insert("classifier.out_proj.bias".into(), vec![labels]);
        }
    }
    w
}

fn embedding_model(variant: BertVariant, pooling: PoolingMode) -> BertEmbeddingModel {
    BertEmbeddingModel::from_weights(&WeightMap::new(), tiny_args(variant), pooling, &mut Steps::new())
        .expect("fixture embedding model builds")
}

fn classifier(weights: &WeightMap, args: BertArgs) -> BertSequenceClassifier {
    BertSequenceClassifier::from_weights(weights, args, &mut Steps::new()).expect("fixture classifier builds")
}

fn json(text: &str) -> Value {
    serde_json::from_str(text).unwrap()
}

#[test]
fn embedding_model_reports_its_width_pooling_and_segment_needs() {
    let bert = embedding_model(BertVariant::Bert, PoolingMode::Mean);
    assert_eq!(bert.embedding_dim(), HIDDEN);
    assert_eq!(bert.default_pooling(), PoolingMode::Mean);
    assert!(bert.needs_token_type_ids());
    assert_eq!(
        bert.max_sequence_length(),
        Some(bert.args().max_position_embeddings)
    );

    let xlmr = embedding_model(BertVariant::XlmRoberta, PoolingMode::Cls);
    assert!(!xlmr.needs_token_type_ids());
    assert_eq!(
        xlmr.max_sequence_length(),
        Some(xlmr.args().max_position_embeddings - 2)
    );
}

#[test]
fn embedding_model_rejects_image_inputs() {
    let model = embedding_model(BertVariant::Bert, PoolingMode::Mean);
    let err = match model.embed(&vec![1, 2], Some(1)) {
        Ok(_) => panic!("a text-only family must refuse images"),
        Err(err) => err,
    };
    assert!(err.contains("image"), "{err}");
    assert!(model.embed(&vec![1, 2], Some(0)).is_ok());
    assert!(model.embed(&vec![1, 2], None).is_ok());
    assert!(model.embed(&vec![1, 25], None).is_err());
}

#[test]
fn classifier_head_produces_one_logit_row_per_input() {
    for variant in [BertVariant::Bert, BertVariant::XlmRoberta] {
        let args = tiny_args(variant);
        let model = classifier(&head_weights(&args), args);
        assert_eq!(model.args().num_labels, 1);
        assert_eq!(
            model.needs_token_type_ids(),
            variant == BertVariant::Bert,
            "{variant:?}"
        );
        assert_eq!(model.logits(&vec![2, 3]).unwrap(), (2, 1), "{variant:?}: [B, num_labels]");
    }
}

#[test]
fn classifier_head_scores_multi_label_configs() {
    let mut args = tiny_args(BertVariant::XlmRoberta);
    args.num_labels = 4;
    let model = classifier(&head_weights(&args), args);
    assert_eq!(model.logits(&vec![1, 3]).unwrap(), (1, 4));
}

#[test]
fn num_labels_comes_from_the_projection_tensor_not_the_config() {
    for variant in [BertVariant::Bert, BertVariant::XlmRoberta] {
        let weights = head_weights(&tiny_args(variant));
        let mut args = tiny_args(variant);
        args.num_labels = 7;
        let model = classifier(&weights, args);
        assert_eq!(
            model.args().num_labels,
            7,
            "{variant:?}: the config's claim"
        );
        assert_eq!(
            model.num_labels(),
            1,
            "{variant:?}: the tensor decides the real head width"
        );
        assert_eq!(
            model.logits(&vec![1, 3]).unwrap(),
            (1, 1),
            "{variant:?}: the logits match the tensor, not the config"
        );
    }
}

#[test]
fn classifier_reads_each_dialect_from_its_own_tensors() {
    for (variant, dense, projection) in [
        (BertVariant::Bert, "pooler.dense", "classifier"),
        (BertVariant::XlmRoberta, "classifier.dense", "classifier.out_proj"),
    ] {
        let args = tiny_args(variant);
        let weights = head_weights(&args);
        let mut steps = Steps::new();
        let model = BertSequenceClassifier::from_weights(&weights, args, &mut steps).unwrap();
        assert_eq!(steps.get(steps.len() - 2).key, dense);
        assert_eq!(steps.get(steps.len() - 1).key, projection);
        assert_eq!(model.head.forward(&vec![2, 5, 8]), vec![2, 8]);
    }
    assert_eq!(head_linear(Err("gone".into())), Err("bert classification head: gone".to_string()));
}

#[test]
fn classifier_refuses_another_family() {
    assert_eq!(
        BertSequenceClassifier::dialect("/m", &json(r#"{"model_type": "llama"}"#)).unwrap_err(),
        "/m is not a BERT or XLM-RoBERTa checkpoint; its config.json declares model_type `llama`"
    );
    assert_eq!(
        BertSequenceClassifier::dialect("/m", &json("{}")).unwrap_err(),
        "/m is not a BERT or XLM-RoBERTa checkpoint; its config.json declares model_type `<missing>`"
    );
    assert_eq!(
        BertSequenceClassifier::dialect("/m", &json(r#"{"model_type": "Bert"}"#)),
        Ok(BertVariant::Bert)
    );
}

#[test]
fn quantization_falls_back_to_the_dense_parameters() {
    assert_eq!(quantization(None), dense_quantization());
    let q = QuantizationParams { group_size: 32, bits: 8 };
    assert_eq!(quantization(Some(q)), q);
    assert_eq!((dense_quantization().group_size, dense_quantization().bits), (64, 4));
}

#[test]
fn heads_carry_the_whole_trunk() {
    for variant in [BertVariant::Bert, BertVariant::XlmRoberta] {
        let args = tiny_args(variant);
        let (layers, pad) = (args.num_hidden_layers, args.pad_token_id);
        let embedder = embedding_model(variant, PoolingMode::Mean);
        let scorer = classifier(&head_weights(&args), args);
        for encoder in [&embedder.encoder, &scorer.encoder] {
            assert_eq!(encoder.layers.len(), layers);
            assert!(encoder.layers.iter().all(|layer| layer.num_heads == 2));
            assert_eq!(encoder.embeddings.variant, variant);
            assert_eq!(encoder.embeddings.pad_token_id, pad);
        }
    }
}
