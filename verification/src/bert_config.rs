//! Config resolution for the BERT / XLM-RoBERTa encoder.
use serde_json::Value;
use vstd::prelude::*;
use vstd::string::*;
use crate::json::{member_text, text_member};
use crate::single::Single;
use crate::text::{ascii_lowercase, dec, lower, same, text};

verus! {

/// The family detected from a checkpoint, as far as this encoder tells families apart.
#[derive(Clone, Copy, Debug, PartialEq, Eq, Structural)]
pub enum ModelType {
    Bert,
    XlmRoberta,
    ModernBert,
    Other,
}

/// Which of the two encoder dialects a checkpoint speaks.
#[derive(Clone, Copy, Debug, PartialEq, Eq, Hash, Structural)]
pub enum BertVariant {
    /// `model_type: bert`. Position ids are `0..L`, segment ids are real.
    Bert,
    /// `model_type: xlm-roberta`. Position ids skip the padding index, and the single-row token-type
    /// table is always indexed at 0.
    XlmRoberta,
}

/// The dialect that a `model_type` names, in any letter case.
pub open spec fn named_variant(name: Option<Seq<char>>) -> Option<BertVariant> {
    match name {
        Some(n) => if lower(n) == "bert"@ {
            Some(BertVariant::Bert)
        } else if lower(n) == "xlm-roberta"@ || lower(n) == "xlm_roberta"@ {
            Some(BertVariant::XlmRoberta)
        } else {
            None
        },
        None => None,
    }
}

impl BertVariant {
    /// Maps the detected family to its dialect.
    pub fn from_model_type(model_type: ModelType) -> (r: Option<Self>)
        ensures
            r == match model_type {
                ModelType::Bert => Some(BertVariant::Bert),
                ModelType::XlmRoberta => Some(BertVariant::XlmRoberta),
                _ => None,
            },
    {
        match model_type {
            ModelType::Bert => Some(BertVariant::Bert),
            ModelType::XlmRoberta => Some(BertVariant::XlmRoberta),
            _ => None,
        }
    }

    /// The dialect that a `model_type` names.
    pub fn from_name(name: Option<&str>) -> (r: Option<Self>)
        ensures
            r == named_variant(match name {
                Some(n) => Some(n@),
                None => None,
            }),
    {
        match name {
            None => None,
            Some(n) => {
                let l: String = ascii_lowercase(n);
                let l: &str = l.as_str();
                if same(l, "bert") {
                    Some(BertVariant::Bert)
                } else if same(l, "xlm-roberta") || same(l, "xlm_roberta") {
                    Some(BertVariant::XlmRoberta)
                } else {
                    None
                }
            },
        }
    }

    /// The dialect implied by the `model_type` of a config.
    pub fn from_config(config: &Value) -> (r: Option<Self>)
        ensures r == named_variant(member_text(*config, "model_type"@)),
    {
        BertVariant::from_name(text_member(config, "model_type"))
    }

    /// Weight-key prefix that a task-head checkpoint puts the encoder under.
    pub fn weight_prefix(&self) -> (r: &'static str)
        ensures
            r@ == match self {
                BertVariant::Bert => "bert."@,
                BertVariant::XlmRoberta => "roberta."@,
            },
    {
        match self {
            BertVariant::Bert => "bert.",
            BertVariant::XlmRoberta => "roberta.",
        }
    }

    pub open spec fn spec_type_vocab_size(self) -> usize {
        match self {
            BertVariant::Bert => 2,
            BertVariant::XlmRoberta => 1,
        }
    }

    pub open spec fn spec_layer_norm_eps_bits(self) -> u32 {
        match self {
            BertVariant::Bert => 0x2b8c_bccc,
            BertVariant::XlmRoberta => 0x3727_c5ac,
        }
    }

    pub open spec fn spec_layer_norm_eps_text(self) -> Seq<char> {
        match self {
            BertVariant::Bert => "0.000000000001"@,
            BertVariant::XlmRoberta => "0.00001"@,
        }
    }

    pub open spec fn spec_pad_token_id(self) -> i32 {
        match self {
            BertVariant::Bert => 0,
            BertVariant::XlmRoberta => 1,
        }
    }

    /// Rows of the token-type table.
    pub fn default_type_vocab_size(&self) -> (r: usize)
        ensures r == self.spec_type_vocab_size(),
    {
        match self {
            BertVariant::Bert => 2,
            BertVariant::XlmRoberta => 1,
        }
    }

    /// One in a million millions for BERT, one in a hundred thousand for XLM-RoBERTa, each as the
    /// nearest single.
    pub fn default_layer_norm_eps(&self) -> (r: Single)
        ensures
            r.bits == self.spec_layer_norm_eps_bits(),
            r.text@ == self.spec_layer_norm_eps_text(),
    {
        match self {
            BertVariant::Bert => Single { bits: 0x2b8c_bccc, text: "0.000000000001".to_owned() },
            BertVariant::XlmRoberta => Single { bits: 0x3727_c5ac, text: "0.00001".to_owned() },
        }
    }

    pub fn default_pad_token_id(&self) -> (r: i32)
        ensures r == self.spec_pad_token_id(),
    {
        match self {
            BertVariant::Bert => 0,
            BertVariant::XlmRoberta => 1,
        }
    }
}

/// Fields read straight off `config.json`. Everything whose default depends on the variant stays
/// optional here and is resolved in [`BertArgs::from_config`].
#[derive(Clone, Debug)]
pub struct RawBertArgs {
    pub vocab_size: usize,
    pub hidden_size: usize,
    pub num_hidden_layers: usize,
    pub num_attention_heads: usize,
    pub intermediate_size: usize,
    pub max_position_embeddings: usize,
    pub type_vocab_size: Option<usize>,
    pub layer_norm_eps: Option<Single>,
    pub pad_token_id: Option<i32>,
    pub hidden_act: Option<String>,
    pub num_labels: Option<usize>,
    /// The number of entries of `id2label`.
    pub id2label: Option<usize>,
}

/// Resolved encoder geometry.
#[derive(Clone, Debug)]
pub struct BertArgs {
    pub variant: BertVariant,
    pub vocab_size: usize,
    pub hidden_size: usize,
    pub num_hidden_layers: usize,
    pub num_attention_heads: usize,
    pub intermediate_size: usize,
    /// Rows of the position table. XLM-RoBERTa stores `max_len + pad + 1`.
    pub max_position_embeddings: usize,
    pub type_vocab_size: usize,
    pub layer_norm_eps: Single,
    pub pad_token_id: i32,
    pub hidden_act: String,
    /// Width of the classification head; `1` when the config declares neither `num_labels` nor
    /// `id2label`.
    pub num_labels: usize,
}

/// Label count: `num_labels`, else the entries of `id2label`; one where that comes to nothing.
pub open spec fn resolved_labels(raw: RawBertArgs) -> usize {
    let declared = match raw.num_labels {
        Some(n) => Some(n),
        None => raw.id2label,
    };
    match declared {
        Some(n) => if n > 0 { n } else { 1 },
        None => 1,
    }
}

impl BertArgs {
    /// The geometry that a raw config resolves to.
    pub open spec fn resolves(&self, raw: RawBertArgs, variant: BertVariant) -> bool {
        &&& self.variant == variant
        &&& self.vocab_size == raw.vocab_size
        &&& self.hidden_size == raw.hidden_size
        &&& self.num_hidden_layers == raw.num_hidden_layers
        &&& self.num_attention_heads == raw.num_attention_heads
        &&& self.intermediate_size == raw.intermediate_size
        &&& self.max_position_embeddings == raw.max_position_embeddings
        &&& self.type_vocab_size == (match raw.type_vocab_size { Some(n) => n, None => variant.spec_type_vocab_size() })
        &&& self.layer_norm_eps.bits == (match raw.layer_norm_eps { Some(e) => e.bits, None => variant.spec_layer_norm_eps_bits() })
        &&& self.layer_norm_eps.text@ == (match raw.layer_norm_eps { Some(e) => e.text@, None => variant.spec_layer_norm_eps_text() })
        &&& self.pad_token_id == (match raw.pad_token_id { Some(p) => p, None => variant.spec_pad_token_id() })
        &&& self.hidden_act@ == (match raw.hidden_act { Some(a) => a@, None => "gelu"@ })
        &&& self.num_labels == resolved_labels(raw)
    }

    /// Reads the encoder geometry, filling the variant-dependent defaults.
    pub fn from_config(raw: &RawBertArgs, variant: BertVariant) -> (r: Result<Self, String>)
        ensures
            match r {
                Ok(args) => {
                    &&& raw.hidden_size != 0 && raw.num_attention_heads != 0
                    &&& raw.hidden_size as nat % raw.num_attention_heads as nat == 0
                    &&& args.resolves(*raw, variant)
                },
                Err(e) => if raw.hidden_size == 0 || raw.num_attention_heads == 0 {
                    e@ == "bert config: hidden_size and num_attention_heads must be non-zero"@
                } else {
                    &&& raw.hidden_size as nat % raw.num_attention_heads as nat != 0
                    &&& e@ == "bert config: hidden_size "@ + dec(raw.hidden_size as nat)
                        + " is not divisible by num_attention_heads "@ + dec(raw.num_attention_heads as nat)
                },
            },
    {
        if raw.hidden_size == 0 || raw.num_attention_heads == 0 {
            return Err("bert config: hidden_size and num_attention_heads must be non-zero".to_owned());
        }
        if raw.hidden_size % raw.num_attention_heads != 0 {
            return Err(
                text("bert config: hidden_size ").num(raw.hidden_size).lit(
                    " is not divisible by num_attention_heads ",
                ).num(raw.num_attention_heads).done(),
            );
        }
        let declared: Option<usize> = match raw.num_labels {
            Some(n) => Some(n),
            None => raw.id2label,
        };
        let num_labels: usize = match declared {
            Some(n) => if n > 0 { n } else { 1 },
            None => 1,
        };
        Ok(
            BertArgs {
                variant,
                vocab_size: raw.vocab_size,
                hidden_size: raw.hidden_size,
                num_hidden_layers: raw.num_hidden_layers,
                num_attention_heads: raw.num_attention_heads,
                intermediate_size: raw.intermediate_size,
                max_position_embeddings: raw.max_position_embeddings,
                type_vocab_size: match raw.type_vocab_size {
                    Some(n) => n,
                    None => variant.default_type_vocab_size(),
                },
                layer_norm_eps: match &raw.layer_norm_eps {
                    Some(e) => e.copy(),
                    None => variant.default_layer_norm_eps(),
                },
                pad_token_id: match raw.pad_token_id {
                    Some(p) => p,
                    None => variant.default_pad_token_id(),
                },
                hidden_act: match &raw.hidden_act {
                    Some(a) => a.clone(),
                    None => "gelu".to_owned(),
                },
                num_labels,
            },
        )
    }

    /// Width of one attention head.
    pub fn head_dim(&self) -> (r: usize)
        requires self.num_attention_heads > 0,
        ensures r as nat == self.hidden_size as nat / self.num_attention_heads as nat,
    {
        self.hidden_size / self.num_attention_heads
    }

    /// Rows of the position table that real tokens can address.
    pub open spec fn spec_max_sequence_length(&self) -> int {
        match self.variant {
            BertVariant::Bert => self.max_position_embeddings as int,
            BertVariant::XlmRoberta => {
                let first = if self.pad_token_id > 0 { self.pad_token_id + 1 } else { 1 };
                if self.max_position_embeddings > first { self.max_position_embeddings - first } else { 0 }
            },
        }
    }

    /// Real tokens the absolute position table can address. BERT indexes the table at `0..L`;
    /// XLM-RoBERTa starts at `pad_token_id + 1`, so the same table holds that many fewer.
    pub fn max_sequence_length(&self) -> (r: usize)
        ensures r == self.spec_max_sequence_length(),
    {
        match self.variant {
            BertVariant::Bert => self.max_position_embeddings,
            BertVariant::XlmRoberta => {
                let pad: usize = if self.pad_token_id > 0 { self.pad_token_id as usize } else { 0 };
                self.max_position_embeddings.saturating_sub(pad + 1)
            },
        }
    }
}

} // verus!
