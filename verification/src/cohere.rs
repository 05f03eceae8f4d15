//! Cohere: LayerNorm, attention and MLP in parallel on one normalized input, optional query/key
//! norms, and scaled logits over tied embeddings.
use vstd::prelude::*;
use vstd::string::*;
use crate::plan::{attend_causal, causal_unless_masked, fits_mul, AttendPlan, HeadPlan, Rope};
use crate::single::{Single, ONE_BITS};
use crate::steps::{step, StepKind, StepView, Steps};
use crate::text::text;
use crate::weights::{layer_name, layer_prefix};

verus! {

/// Cohere `config.json`.
#[derive(Clone, Debug)]
pub struct ModelArgs {
    pub model_type: String,
    pub hidden_size: usize,
    pub num_hidden_layers: usize,
    pub intermediate_size: usize,
    pub num_attention_heads: usize,
    pub num_key_value_heads: usize,
    pub rope_theta: Single,
    pub vocab_size: usize,
    pub layer_norm_eps: Single,
    pub logit_scale: Single,
    pub attention_bias: bool,
    pub layer_norm_bias: bool,
    pub use_qk_norm: bool,
    pub quantization: Option<Quantization>,
}

/// The `quantization` block.
#[derive(Clone, Copy, Debug)]
pub struct Quantization {
    pub group_size: i32,
    pub bits: i32,
}

impl ModelArgs {
    /// Width of one head.
    pub open spec fn spec_head_dim(&self) -> usize {
        (self.hidden_size / self.num_attention_heads) as usize
    }

    pub fn head_dim(&self) -> (r: usize)
        requires self.num_attention_heads > 0,
        ensures r == self.spec_head_dim(),
    {
        self.hidden_size / self.num_attention_heads
    }

    pub open spec fn spec_group_size(&self) -> i32 {
        match self.quantization {
            Some(q) => q.group_size,
            None => 64,
        }
    }

    pub open spec fn spec_bits(&self) -> i32 {
        match self.quantization {
            Some(q) => q.bits,
            None => 4,
        }
    }

    pub fn group_size(&self) -> (r: i32)
        ensures r == self.spec_group_size(),
    {
        match &self.quantization {
            Some(q) => q.group_size,
            None => 64,
        }
    }

    pub fn bits(&self) -> (r: i32)
        ensures r == self.spec_bits(),
    {
        match &self.quantization {
            Some(q) => q.bits,
            None => 4,
        }
    }
}

/// One attention block.
#[derive(Debug)]
pub struct Attention {
    /// Whether queries and keys are normalized per head.
    pub qk_norm: bool,
    pub num_heads: i32,
    pub num_kv_heads: i32,
    pub head_dim: i32,
    pub rope_dims: i32,
    pub rope_base: Single,
}

/// The load steps of the four attention projections.
pub open spec fn projection_steps(s: Seq<StepView>, prefix: Seq<char>) -> Seq<StepView> {
    let s = step(s, StepKind::Linear, prefix + ".q_proj"@);
    let s = step(s, StepKind::Linear, prefix + ".k_proj"@);
    let s = step(s, StepKind::Linear, prefix + ".v_proj"@);
    step(s, StepKind::Linear, prefix + ".o_proj"@)
}

fn load_projections(prefix: &str, steps: &mut Steps)
    ensures final(steps)@ == projection_steps(old(steps)@, prefix@),
{
    steps.push(StepKind::Linear, text(prefix).lit(".q_proj").done());
    steps.push(StepKind::Linear, text(prefix).lit(".k_proj").done());
    steps.push(StepKind::Linear, text(prefix).lit(".v_proj").done());
    steps.push(StepKind::Linear, text(prefix).lit(".o_proj").done());
}

/// The load steps of an attention block.
pub open spec fn attention_steps(s: Seq<StepView>, prefix: Seq<char>, qk_norm: bool) -> Seq<StepView> {
    let s = projection_steps(s, prefix);
    if qk_norm {
        step(step(s, StepKind::Tensor, prefix + ".q_norm.weight"@), StepKind::Tensor, prefix + ".k_norm.weight"@)
    } else {
        s
    }
}

impl Attention {
    /// The head split of an input `[batch, length, hidden]`, and its rotation from `offset` on.
    pub fn forward(&self, x: &Vec<i32>, offset: i32) -> (r: HeadPlan)
        requires
            x@.len() >= 2,
            fits_mul(self.num_heads as int, self.head_dim as int),
        ensures
            r == (HeadPlan {
                batch: x@[0],
                length: x@[1],
                q_heads: self.num_heads,
                kv_heads: self.num_kv_heads,
                head_dim: self.head_dim,
                rope: Some(Rope { dims: self.rope_dims, traditional: true, offset }),
                width: (self.num_heads * self.head_dim) as i32,
            }),
    {
        HeadPlan {
            batch: x[0],
            length: x[1],
            q_heads: self.num_heads,
            kv_heads: self.num_kv_heads,
            head_dim: self.head_dim,
            rope: Some(Rope { dims: self.rope_dims, traditional: true, offset }),
            width: self.num_heads * self.head_dim,
        }
    }

    /// The kernel that reads the cached keys.
    pub fn attend(&self, length: i32, has_mask: bool) -> (r: AttendPlan)
        ensures r == causal_unless_masked(length, has_mask, 0),
    {
        attend_causal(length, has_mask, 0)
    }

    /// The block that a config describes.
    pub open spec fn follows(&self, args: ModelArgs) -> bool {
        &&& self.qk_norm == args.use_qk_norm
        &&& self.num_heads == args.num_attention_heads as i32
        &&& self.num_kv_heads == args.num_key_value_heads as i32
        &&& self.head_dim == args.spec_head_dim() as i32
        &&& self.rope_dims == self.head_dim
        &&& self.rope_base.is_copy_of(args.rope_theta)
    }

    /// The block that a config describes, with its load steps.
    pub fn from_weights(args: &ModelArgs, prefix: &str, steps: &mut Steps) -> (r: Self)
        requires args.num_attention_heads > 0,
        ensures
            r.follows(*args),
            final(steps)@ == attention_steps(old(steps)@, prefix@, args.use_qk_norm),
    {
        load_projections(prefix, steps);
        if args.use_qk_norm {
            steps.push(StepKind::Tensor, text(prefix).lit(".q_norm.weight").done());
            steps.push(StepKind::Tensor, text(prefix).lit(".k_norm.weight").done());
        }
        let head_dim: i32 = args.head_dim() as i32;
        Attention {
            qk_norm: args.use_qk_norm,
            num_heads: args.num_attention_heads as i32,
            num_kv_heads: args.num_key_value_heads as i32,
            head_dim,
            rope_dims: head_dim,
            rope_base: args.rope_theta.copy(),
        }
    }
}

/// The load steps of a SwiGLU block.
pub open spec fn mlp_steps(s: Seq<StepView>, prefix: Seq<char>) -> Seq<StepView> {
    let s = step(s, StepKind::Linear, prefix + ".gate_proj"@);
    let s = step(s, StepKind::Linear, prefix + ".up_proj"@);
    step(s, StepKind::Linear, prefix + ".down_proj"@)
}

/// A SwiGLU block.
#[derive(Clone, Copy, Debug)]
pub struct MLP {}

impl MLP {
    /// The block with its load steps.
    pub fn from_weights(prefix: &str, steps: &mut Steps) -> (r: Self)
        ensures final(steps)@ == mlp_steps(old(steps)@, prefix@),
    {
        steps.push(StepKind::Linear, text(prefix).lit(".gate_proj").done());
        steps.push(StepKind::Linear, text(prefix).lit(".up_proj").done());
        steps.push(StepKind::Linear, text(prefix).lit(".down_proj").done());
        MLP {}
    }
}

/// The load steps of a LayerNorm; its bias is looked for only when the config enables it.
pub open spec fn norm_steps(s: Seq<StepView>, prefix: Seq<char>, bias: bool) -> Seq<StepView> {
    let s = step(s, StepKind::Tensor, prefix + ".weight"@);
    if bias { step(s, StepKind::OptionalTensor, prefix + ".bias"@) } else { s }
}

fn load_norm(prefix: &str, bias: bool, steps: &mut Steps)
    ensures final(steps)@ == norm_steps(old(steps)@, prefix@, bias),
{
    steps.push(StepKind::Tensor, text(prefix).lit(".weight").done());
    if bias {
        steps.push(StepKind::OptionalTensor, text(prefix).lit(".bias").done());
    }
}

/// One parallel block.
#[derive(Debug)]
pub struct TransformerBlock {
    pub self_attn: Attention,
    pub mlp: MLP,
}

/// The load steps of layer `i`.
pub open spec fn layer_steps(s: Seq<StepView>, args: ModelArgs, i: nat) -> Seq<StepView> {
    let p = layer_name(i);
    let s = attention_steps(s, p + ".self_attn"@, args.use_qk_norm);
    let s = mlp_steps(s, p + ".mlp"@);
    norm_steps(s, p + ".input_layernorm"@, args.layer_norm_bias)
}

impl TransformerBlock {
    /// The block that a config describes, with its load steps.
    pub fn from_weights(args: &ModelArgs, layer_idx: usize, steps: &mut Steps) -> (r: Self)
        requires args.num_attention_heads > 0,
        ensures
            r.self_attn.follows(*args),
            final(steps)@ == layer_steps(old(steps)@, *args, layer_idx as nat),
    {
        let prefix: String = layer_prefix(layer_idx);
        let attn: String = text(prefix.as_str()).lit(".self_attn").done();
        let mlp_key: String = text(prefix.as_str()).lit(".mlp").done();
        let norm: String = text(prefix.as_str()).lit(".input_layernorm").done();
        let self_attn: Attention = Attention::from_weights(args, attn.as_str(), steps);
        let mlp: MLP = MLP::from_weights(mlp_key.as_str(), steps);
        load_norm(norm.as_str(), args.layer_norm_bias, steps);
        TransformerBlock { self_attn, mlp }
    }
}

/// The load steps of the first `n` layers, behind the embedding table.
pub open spec fn stack_steps(args: ModelArgs, n: nat) -> Seq<StepView>
    decreases n,
{
    if n == 0 {
        step(Seq::empty(), StepKind::Embedding, "model.embed_tokens"@)
    } else {
        layer_steps(stack_steps(args, (n - 1) as nat), args, (n - 1) as nat)
    }
}

/// Cohere.
#[derive(Debug)]
pub struct CohereModel {
    pub layers: Vec<TransformerBlock>,
    pub logit_scale: Single,
}

impl CohereModel {
    /// Whether the logits are scaled: a scale of exactly one leaves them alone.
    pub fn forward(&self) -> (r: bool)
        ensures r == (self.logit_scale.bits != ONE_BITS),
    {
        !self.logit_scale.is_one()
    }

    /// The number of layers, each with a cache of its own.
    pub fn num_layers(&self) -> (r: usize)
        ensures r == self.layers@.len(),
    {
        self.layers.len()
    }

    /// The ids that end a generation.
    pub fn eos_token_ids(&self) -> (r: Vec<i32>)
        ensures r@ == seq![255001i32],
    {
        let r: Vec<i32> = vec![255001i32];
        assert(r@ =~= seq![255001i32]);
        r
    }

    /// The model that a config describes, with its load steps.
    pub fn from_weights(args: &ModelArgs) -> (r: (Self, Steps))
        requires
            args.num_attention_heads > 0,
        ensures
            r.0.layers@.len() == args.num_hidden_layers,
            forall|i: int| 0 <= i < r.0.layers@.len() ==> (#[trigger] r.0.layers@[i]).self_attn.follows(*args),
            r.0.logit_scale.is_copy_of(args.logit_scale),
            r.1@ == norm_steps(
                stack_steps(*args, args.num_hidden_layers as nat),
                "model.norm"@,
                args.layer_norm_bias,
            ),
    {
        let mut steps: Steps = Steps::new();
        steps.push(StepKind::Embedding, "model.embed_tokens".to_owned());
        assert(steps@ =~= stack_steps(*args, 0));
        let mut layers: Vec<TransformerBlock> = Vec::new();
        let mut i: usize = 0;
        while i < args.num_hidden_layers
            invariant
                i <= args.num_hidden_layers,
                args.num_attention_heads > 0,
                layers@.len() == i,
                steps@ == stack_steps(*args, i as nat),
                forall|j: int| 0 <= j < i ==> (#[trigger] layers@[j]).self_attn.follows(*args),
            decreases args.num_hidden_layers - i,
        {
            let layer: TransformerBlock = TransformerBlock::from_weights(args, i, &mut steps);
            layers.push(layer);
            i = i + 1;
        }
        load_norm("model.norm", args.layer_norm_bias, &mut steps);
        (CohereModel { layers, logit_scale: args.logit_scale.copy() }, steps)
    }
}

} // verus!
