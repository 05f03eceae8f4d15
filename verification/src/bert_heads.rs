//! The two heads that sit on the encoder trunk: the embedding model and the sequence classifier.
use serde_json::Value;
use vstd::prelude::*;
use vstd::string::*;
use crate::bert::{encoder_steps, named_activation, BertEncoder};
use crate::bert_config::{named_variant, BertArgs, BertVariant};
use crate::json::{member_text, text_member};
use crate::limits::told;
use crate::steps::{step, StepKind, Steps};
use crate::text::{lower, text, trim};
use crate::weights::WeightMap;

verus! {

/// Group size and bit width of a quantized checkpoint.
#[derive(Clone, Copy, Debug, PartialEq, Eq, Structural)]
pub struct QuantizationParams {
    pub group_size: i32,
    pub bits: i32,
}

/// The parameters for a checkpoint without a `quantization` block, which the loaders ignore.
pub fn dense_quantization() -> (r: QuantizationParams)
    ensures r == (QuantizationParams { group_size: 64, bits: 4 }),
{
    QuantizationParams { group_size: 64, bits: 4 }
}

/// The declared parameters, or those of a dense checkpoint.
pub fn quantization(declared: Option<QuantizationParams>) -> (r: QuantizationParams)
    ensures
        r == match declared {
            Some(q) => q,
            None => QuantizationParams { group_size: 64, bits: 4 },
        },
{
    match declared {
        Some(q) => q,
        None => dense_quantization(),
    }
}

/// How token states are pooled into one vector.
#[derive(Clone, Copy, Debug, PartialEq, Eq, Structural)]
pub enum PoolingMode {
    Mean,
    Cls,
}

/// BERT / XLM-RoBERTa as an embedding model.
#[derive(Debug)]
pub struct BertEmbeddingModel {
    pub encoder: BertEncoder,
    pub pooling: PoolingMode,
}

impl BertEmbeddingModel {
    /// The model of a config with an explicit pooling mode, with its load steps.
    pub fn from_weights(weights: &WeightMap, args: BertArgs, pooling: PoolingMode, steps: &mut Steps) -> (r: Result<
        Self,
        String,
    >)
        ensures
            match r {
                Ok(m) => {
                    &&& m.encoder.follows(args)
                    &&& m.pooling == pooling
                    &&& final(steps)@ == encoder_steps(old(steps)@, weights@, args.num_hidden_layers as nat)
                },
                Err(e) => {
                    &&& named_activation(lower(trim(args.hidden_act@))) is None
                    &&& e@ == "bert config: hidden_act `"@ + lower(trim(args.hidden_act@))
                        + "` is not supported; expected gelu, gelu_new / gelu_pytorch_tanh or relu"@
                    &&& final(steps)@ == old(steps)@
                },
            },
    {
        match BertEncoder::from_weights(weights, args, steps) {
            Ok(encoder) => Ok(BertEmbeddingModel { encoder, pooling }),
            Err(e) => Err(e),
        }
    }

    /// Resolved encoder geometry.
    pub fn args(&self) -> (r: &BertArgs)
        ensures *r == self.encoder.args,
    {
        self.encoder.args()
    }

    /// Whether a batch can be embedded: it carries no image, and the encoder admits its shape.
    pub fn embed(&self, input_ids: &Vec<i32>, images: Option<usize>) -> (r: Result<(), String>)
        ensures
            told(r) == (if images matches Some(n) && n > 0 {
                Err("BERT / XLM-RoBERTa embedders do not accept image inputs"@)
            } else {
                self.encoder.finding(input_ids@)
            }),
    {
        if let Some(n) = images {
            if n > 0 {
                return Err("BERT / XLM-RoBERTa embedders do not accept image inputs".to_owned());
            }
        }
        self.encoder.encode(input_ids)
    }

    /// The pooling of a checkpoint that declares none.
    pub fn default_pooling(&self) -> (r: PoolingMode)
        ensures r == PoolingMode::Mean,
    {
        PoolingMode::Mean
    }

    /// Width of an embedding.
    pub fn embedding_dim(&self) -> (r: usize)
        ensures r == self.encoder.args.hidden_size,
    {
        self.encoder.args.hidden_size
    }

    /// Whether a batch has to carry segment ids.
    pub fn needs_token_type_ids(&self) -> (r: bool)
        ensures r == (self.encoder.args.variant == BertVariant::Bert),
    {
        self.encoder.args.variant == BertVariant::Bert
    }

    /// Tokens that the position table addresses.
    pub fn max_sequence_length(&self) -> (r: Option<usize>)
        ensures r matches Some(n) && n == self.encoder.args.spec_max_sequence_length(),
    {
        Some(self.encoder.args.max_sequence_length())
    }
}

/// `tanh(dense(first token))` followed by the label projection. BERT keeps the first linear in
/// `pooler.dense` and the projection in `classifier`; XLM-RoBERTa keeps both under `classifier.`.
#[derive(Debug)]
pub struct ClassifierHead {
    pub dense: String,
    pub projection: String,
    /// Rows of the projection, which is the width the head really produces.
    pub num_labels: usize,
}

/// The prefix of the first linear.
pub open spec fn dense_prefix(variant: BertVariant) -> Seq<char> {
    match variant {
        BertVariant::Bert => "pooler.dense"@,
        BertVariant::XlmRoberta => "classifier.dense"@,
    }
}

/// The prefix of the label projection.
pub open spec fn projection_prefix(variant: BertVariant) -> Seq<char> {
    match variant {
        BertVariant::Bert => "classifier"@,
        BertVariant::XlmRoberta => "classifier.out_proj"@,
    }
}

/// Rows of a projection; none where it is not stored.
pub open spec fn projection_rows(weights: Map<Seq<char>, Seq<i32>>, prefix: Seq<char>) -> nat {
    let key = prefix + ".weight"@;
    if weights.contains_key(key) && weights[key].len() > 0 && weights[key][0] > 0 {
        weights[key][0] as nat
    } else {
        0
    }
}

/// What the engine made of a head projection, with its error named after the head.
pub fn head_linear(loaded: Result<(), String>) -> (r: Result<(), String>)
    ensures
        told(r) == match loaded {
            Ok(_) => Ok(()),
            Err(e) => Err("bert classification head: "@ + e@),
        },
{
    match loaded {
        Ok(_) => Ok(()),
        Err(e) => Err(text("bert classification head: ").lit(e.as_str()).done()),
    }
}

impl ClassifierHead {
    /// The head of a dialect, with its load steps.
    pub fn from_weights(weights: &WeightMap, variant: BertVariant, steps: &mut Steps) -> (r: Self)
        ensures
            r.dense@ == dense_prefix(variant),
            r.projection@ == projection_prefix(variant),
            r.num_labels == projection_rows(weights@, projection_prefix(variant)),
            final(steps)@ == step(
                step(old(steps)@, StepKind::Linear, dense_prefix(variant)),
                StepKind::Linear,
                projection_prefix(variant),
            ),
    {
        let (dense, projection) = match variant {
            BertVariant::Bert => ("pooler.dense", "classifier"),
            BertVariant::XlmRoberta => ("classifier.dense", "classifier.out_proj"),
        };
        steps.push(StepKind::Linear, dense.to_owned());
        steps.push(StepKind::Linear, projection.to_owned());
        let key: String = text(projection).lit(".weight").done();
        let num_labels: usize = match weights.get(key.as_str()) {
            Some(shape) => if shape.len() > 0 && shape[0] > 0 { shape[0] as usize } else { 0 },
            None => 0,
        };
        ClassifierHead { dense: dense.to_owned(), projection: projection.to_owned(), num_labels }
    }

    /// The shape `[batch, width]` of the first token's states, of hidden states
    /// `[batch, length, width]`.
    pub fn forward(&self, hidden: &Vec<i32>) -> (r: Vec<i32>)
        requires hidden@.len() >= 3,
        ensures r@ == seq![hidden@[0], hidden@[2]],
    {
        let mut r: Vec<i32> = Vec::new();
        r.push(hidden[0]);
        r.push(hidden[2]);
        assert(r@ =~= seq![hidden@[0], hidden@[2]]);
        r
    }
}

/// A sequence classifier over the encoder trunk.
#[derive(Debug)]
pub struct BertSequenceClassifier {
    pub encoder: BertEncoder,
    pub head: ClassifierHead,
}

/// The message for a checkpoint of another family.
pub open spec fn not_an_encoder(dir: Seq<char>, model_type: Option<Seq<char>>) -> Seq<char> {
    dir + " is not a BERT or XLM-RoBERTa checkpoint; its config.json declares model_type `"@ + (match model_type {
        Some(m) => m,
        None => "<missing>"@,
    }) + "`"@
}

impl BertSequenceClassifier {
    /// The dialect that a `model_type` names, or the error for the checkpoint in `dir`.
    pub fn dialect_of(dir: &str, model_type: Option<&str>) -> (r: Result<BertVariant, String>)
        ensures
            ({
                let name = match model_type { Some(m) => Some(m@), None => None };
                match r {
                    Ok(v) => named_variant(name) == Some(v),
                    Err(e) => named_variant(name) is None && e@ == not_an_encoder(dir@, name),
                }
            }),
    {
        match BertVariant::from_name(model_type) {
            Some(v) => Ok(v),
            None => {
                let shown: &str = match model_type {
                    Some(m) => m,
                    None => "<missing>",
                };
                Err(
                    text(dir).lit(
                        " is not a BERT or XLM-RoBERTa checkpoint; its config.json declares model_type `",
                    ).lit(shown).lit("`").done(),
                )
            },
        }
    }

    /// The dialect of a config, or the error for the checkpoint in `dir`.
    pub fn dialect(dir: &str, config: &Value) -> (r: Result<BertVariant, String>)
        ensures
            match r {
                Ok(v) => named_variant(member_text(*config, "model_type"@)) == Some(v),
                Err(e) => named_variant(member_text(*config, "model_type"@)) is None
                    && e@ == not_an_encoder(dir@, member_text(*config, "model_type"@)),
            },
    {
        BertSequenceClassifier::dialect_of(dir, text_member(config, "model_type"))
    }

    /// The classifier of a config, with its load steps.
    pub fn from_weights(weights: &WeightMap, args: BertArgs, steps: &mut Steps) -> (r: Result<Self, String>)
        ensures
            match r {
                Ok(m) => {
                    &&& m.encoder.follows(args)
                    &&& m.head.dense@ == dense_prefix(args.variant)
                    &&& m.head.projection@ == projection_prefix(args.variant)
                    &&& m.head.num_labels == projection_rows(weights@, projection_prefix(args.variant))
                    &&& final(steps)@ == step(
                        step(
                            encoder_steps(old(steps)@, weights@, args.num_hidden_layers as nat),
                            StepKind::Linear,
                            dense_prefix(args.variant),
                        ),
                        StepKind::Linear,
                        projection_prefix(args.variant),
                    )
                },
                Err(e) => {
                    &&& named_activation(lower(trim(args.hidden_act@))) is None
                    &&& e@ == "bert config: hidden_act `"@ + lower(trim(args.hidden_act@))
                        + "` is not supported; expected gelu, gelu_new / gelu_pytorch_tanh or relu"@
                    &&& final(steps)@ == old(steps)@
                },
            },
    {
        let variant: BertVariant = args.variant;
        match BertEncoder::from_weights(weights, args, steps) {
            Ok(encoder) => {
                let head: ClassifierHead = ClassifierHead::from_weights(weights, variant, steps);
                Ok(BertSequenceClassifier { encoder, head })
            },
            Err(e) => Err(e),
        }
    }

    /// Resolved encoder geometry, with the label count that the config claims.
    pub fn args(&self) -> (r: &BertArgs)
        ensures *r == self.encoder.args,
    {
        self.encoder.args()
    }

    /// The label count that the head really produces: the rows of its projection tensor, whatever
    /// the config claims.
    pub fn num_labels(&self) -> (r: usize)
        ensures r == self.head.num_labels,
    {
        self.head.num_labels
    }

    /// Whether a batch has to carry segment ids.
    pub fn needs_token_type_ids(&self) -> (r: bool)
        ensures r == (self.encoder.args.variant == BertVariant::Bert),
    {
        self.encoder.args.variant == BertVariant::Bert
    }

    /// The shape of the logits of a batch, or why it cannot be scored.
    pub fn logits(&self, input_ids: &Vec<i32>) -> (r: Result<(i32, usize), String>)
        ensures
            match r {
                Ok(s) => self.encoder.finding(input_ids@) is Ok && s == (input_ids@[0], self.head.num_labels),
                Err(e) => self.encoder.finding(input_ids@) == Err::<(), Seq<char>>(e@),
            },
    {
        match self.encoder.encode(input_ids) {
            Ok(_) => Ok((input_ids[0], self.head.num_labels)),
            Err(e) => Err(e),
        }
    }
}

} // verus!
