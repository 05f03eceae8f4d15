//! Apertus: a Llama-style decoder with a gateless xIELU MLP, optional per-head query/key norms and
//! scaled rotary frequencies.
use vstd::prelude::*;
use vstd::string::*;
use crate::json::ScalingBlock;
use crate::plan::{attend_causal, causal_unless_masked, fits_mul, AttendPlan, HeadPlan, Rope};
use crate::single::Single;
use crate::steps::{step, StepKind, StepView, Steps};
use crate::text::{same, text};
use crate::weights::{layer_name, layer_prefix};

verus! {

/// Apertus `config.json`.
#[derive(Clone, Debug)]
pub struct ModelArgs {
    pub model_type: String,
    pub hidden_size: usize,
    pub num_hidden_layers: usize,
    pub intermediate_size: usize,
    pub num_attention_heads: usize,
    pub num_key_value_heads: usize,
    pub rms_norm_eps: Single,
    pub vocab_size: usize,
    pub head_dim: Option<usize>,
    pub max_position_embeddings: Option<usize>,
    pub rope_theta: Single,
    pub rope_scaling: Option<ScalingBlock>,
    pub qk_norm: bool,
    /// Read for completeness; nothing depends on it.
    pub post_norm: bool,
    pub attention_bias: bool,
    pub mlp_bias: bool,
    pub tie_word_embeddings: bool,
    pub quantization: Option<Quantization>,
}

/// The `quantization` block.
#[derive(Clone, Copy, Debug)]
pub struct Quantization {
    pub group_size: i32,
    pub bits: i32,
}

pub fn default_rope_theta() -> (r: Single)
    ensures r.bits == 0x461c_4000, r.text@ == "10000"@,
{
    Single { bits: 0x461c_4000, text: "10000".to_owned() }
}

/// The slope of the activation where the checkpoint stores none.
pub fn default_beta() -> (r: Single)
    ensures r.bits == 0x3f00_0000, r.text@ == "0.5"@,
{
    Single { bits: 0x3f00_0000, text: "0.5".to_owned() }
}

/// The clamp of the activation where the checkpoint stores none.
pub fn default_eps() -> (r: Single)
    ensures r.bits == 0xb586_37bd, r.text@ == "-0.000001"@,
{
    Single { bits: 0xb586_37bd, text: "-0.000001".to_owned() }
}

impl ModelArgs {
    /// Width of one head.
    pub open spec fn spec_head_dim(&self) -> usize {
        match self.head_dim {
            Some(d) => d,
            None => (self.hidden_size / self.num_attention_heads) as usize,
        }
    }

    /// Width of one head: `head_dim`, or the hidden width over the heads.
    pub fn head_dim(&self) -> (r: usize)
        requires self.num_attention_heads > 0,
        ensures r == self.spec_head_dim(),
    {
        match self.head_dim {
            Some(d) => d,
            None => self.hidden_size / self.num_attention_heads,
        }
    }

    /// The config scales its rotary frequencies by the `llama3` bands.
    pub open spec fn scales_frequencies(&self) -> bool {
        self.rope_scaling matches Some(block) && block.spec_kind() == Some("llama3"@)
    }

    /// How many scaled rotary frequencies there are: one per channel pair of a head under the
    /// `llama3` kind, none for any other kind.
    pub fn compute_rope_freqs(&self) -> (r: Option<usize>)
        requires self.num_attention_heads > 0,
        ensures
            r is Some <==> self.scales_frequencies(),
            r matches Some(n) ==> n == self.spec_head_dim() / 2,
    {
        match &self.rope_scaling {
            None => None,
            Some(block) => match block.kind() {
                None => None,
                Some(kind) => if same(kind, "llama3") { Some(self.head_dim() / 2) } else { None },
            },
        }
    }

    pub open spec fn spec_group_size(&self) -> i32 {
        match self.quantization {
            Some(q) => q.group_size,
            None => 64,
        }
    }

    pub open spec fn spec_bits(&self) -> i32 {
        match self.quantization {
            Some(q) => q.bits,
            None => 4,
        }
    }

    pub fn group_size(&self) -> (r: i32)
        ensures r == self.spec_group_size(),
    {
        match &self.quantization {
            Some(q) => q.group_size,
            None => 64,
        }
    }

    pub fn bits(&self) -> (r: i32)
        ensures r == self.spec_bits(),
    {
        match &self.quantization {
            Some(q) => q.bits,
            None => 4,
        }
    }
}

/// The load steps of an MLP: two projections, and the activation's numbers, of which `beta` and
/// `eps` may be missing.
pub open spec fn mlp_steps(s: Seq<StepView>, prefix: Seq<char>) -> Seq<StepView> {
    let s = step(s, StepKind::Linear, prefix + ".up_proj"@);
    let s = step(s, StepKind::Linear, prefix + ".down_proj"@);
    let s = step(s, StepKind::OptionalScalar, prefix + ".act_fn.beta"@);
    let s = step(s, StepKind::OptionalScalar, prefix + ".act_fn.eps"@);
    let s = step(s, StepKind::Scalar, prefix + ".act_fn.alpha_p"@);
    step(s, StepKind::Scalar, prefix + ".act_fn.alpha_n"@)
}

/// An xIELU block without a gate.
#[derive(Clone, Copy, Debug)]
pub struct MLP {}

impl MLP {
    /// The block with its load steps.
    pub fn from_weights(prefix: &str, steps: &mut Steps) -> (r: Self)
        ensures final(steps)@ == mlp_steps(old(steps)@, prefix@),
    {
        steps.push(StepKind::Linear, text(prefix).lit(".up_proj").done());
        steps.push(StepKind::Linear, text(prefix).lit(".down_proj").done());
        steps.push(StepKind::OptionalScalar, text(prefix).lit(".act_fn.beta").done());
        steps.push(StepKind::OptionalScalar, text(prefix).lit(".act_fn.eps").done());
        steps.push(StepKind::Scalar, text(prefix).lit(".act_fn.alpha_p").done());
        steps.push(StepKind::Scalar, text(prefix).lit(".act_fn.alpha_n").done());
        MLP {}
    }
}

/// One attention block.
#[derive(Debug)]
pub struct Attention {
    /// Whether queries and keys are normalized per head.
    pub qk_norm: bool,
    pub num_heads: i32,
    pub num_kv_heads: i32,
    pub head_dim: i32,
    pub rope_dims: i32,
    pub rope_base: Single,
    /// Number of scaled frequencies, in place of the plain base.
    pub rope_freqs: Option<usize>,
}

/// The load steps of the four attention projections.
pub open spec fn projection_steps(s: Seq<StepView>, prefix: Seq<char>) -> Seq<StepView> {
    let s = step(s, StepKind::Linear, prefix + ".q_proj"@);
    let s = step(s, StepKind::Linear, prefix + ".k_proj"@);
    let s = step(s, StepKind::Linear, prefix + ".v_proj"@);
    step(s, StepKind::Linear, prefix + ".o_proj"@)
}

fn load_projections(prefix: &str, steps: &mut Steps)
    ensures final(steps)@ == projection_steps(old(steps)@, prefix@),
{
    steps.push(StepKind::Linear, text(prefix).lit(".q_proj").done());
    steps.push(StepKind::Linear, text(prefix).lit(".k_proj").done());
    steps.push(StepKind::Linear, text(prefix).lit(".v_proj").done());
    steps.push(StepKind::Linear, text(prefix).lit(".o_proj").done());
}

/// The load steps of an attention block.
pub open spec fn attention_steps(s: Seq<StepView>, prefix: Seq<char>, qk_norm: bool) -> Seq<StepView> {
    let s = projection_steps(s, prefix);
    if qk_norm {
        step(step(s, StepKind::Tensor, prefix + ".q_norm.weight"@), StepKind::Tensor, prefix + ".k_norm.weight"@)
    } else {
        s
    }
}

impl Attention {
    /// The head split of an input `[batch, length, hidden]`, and its rotation from `offset` on.
    pub fn forward(&self, x: &Vec<i32>, offset: i32) -> (r: HeadPlan)
        requires
            x@.len() >= 2,
            fits_mul(self.num_heads as int, self.head_dim as int),
        ensures
            r == (HeadPlan {
                batch: x@[0],
                length: x@[1],
                q_heads: self.num_heads,
                kv_heads: self.num_kv_heads,
                head_dim: self.head_dim,
                rope: Some(Rope { dims: self.rope_dims, traditional: false, offset }),
                width: (self.num_heads * self.head_dim) as i32,
            }),
    {
        HeadPlan {
            batch: x[0],
            length: x[1],
            q_heads: self.num_heads,
            kv_heads: self.num_kv_heads,
            head_dim: self.head_dim,
            rope: Some(Rope { dims: self.rope_dims, traditional: false, offset }),
            width: self.num_heads * self.head_dim,
        }
    }

    /// The kernel that reads the cached keys.
    pub fn attend(&self, length: i32, has_mask: bool) -> (r: AttendPlan)
        ensures r == causal_unless_masked(length, has_mask, 0),
    {
        attend_causal(length, has_mask, 0)
    }

    /// The block that a config describes.
    pub open spec fn follows(&self, args: ModelArgs) -> bool {
        &&& self.qk_norm == args.qk_norm
        &&& self.num_heads == args.num_attention_heads as i32
        &&& self.num_kv_heads == args.num_key_value_heads as i32
        &&& self.head_dim == args.spec_head_dim() as i32
        &&& self.rope_dims == self.head_dim
        &&& self.rope_base.is_copy_of(args.rope_theta)
        &&& self.rope_freqs is Some <==> args.scales_frequencies()
        &&& self.rope_freqs matches Some(n) ==> n == args.spec_head_dim() / 2
    }

    /// The block that a config describes, with its load steps.
    pub fn from_weights(args: &ModelArgs, prefix: &str, steps: &mut Steps) -> (r: Self)
        requires args.num_attention_heads > 0,
        ensures
            r.follows(*args),
            final(steps)@ == attention_steps(old(steps)@, prefix@, args.qk_norm),
    {
        load_projections(prefix, steps);
        if args.qk_norm {
            steps.push(StepKind::Tensor, text(prefix).lit(".q_norm.weight").done());
            steps.push(StepKind::Tensor, text(prefix).lit(".k_norm.weight").done());
        }
        let head_dim: i32 = args.head_dim() as i32;
        Attention {
            qk_norm: args.qk_norm,
            num_heads: args.num_attention_heads as i32,
            num_kv_heads: args.num_key_value_heads as i32,
            head_dim,
            rope_dims: head_dim,
            rope_base: args.rope_theta.copy(),
            rope_freqs: args.compute_rope_freqs(),
        }
    }
}

/// One decoder block.
#[derive(Debug)]
pub struct TransformerBlock {
    pub self_attn: Attention,
    pub mlp: MLP,
}

/// The load steps of layer `i`.
pub open spec fn layer_steps(s: Seq<StepView>, args: ModelArgs, i: nat) -> Seq<StepView> {
    let p = layer_name(i);
    let s = attention_steps(s, p + ".self_attn"@, args.qk_norm);
    let s = mlp_steps(s, p + ".mlp"@);
    let s = step(s, StepKind::Tensor, p + ".attention_layernorm.weight"@);
    step(s, StepKind::Tensor, p + ".feedforward_layernorm.weight"@)
}

impl TransformerBlock {
    /// The block that a config describes, with its load steps.
    pub fn from_weights(args: &ModelArgs, layer_idx: usize, steps: &mut Steps) -> (r: Self)
        requires args.num_attention_heads > 0,
        ensures
            r.self_attn.follows(*args),
            final(steps)@ == layer_steps(old(steps)@, *args, layer_idx as nat),
    {
        let prefix: String = layer_prefix(layer_idx);
        let attn: String = text(prefix.as_str()).lit(".self_attn").done();
        let mlp_key: String = text(prefix.as_str()).lit(".mlp").done();
        let self_attn: Attention = Attention::from_weights(args, attn.as_str(), steps);
        let mlp: MLP = MLP::from_weights(mlp_key.as_str(), steps);
        steps.push(StepKind::Tensor, text(prefix.as_str()).lit(".attention_layernorm.weight").done());
        steps.push(StepKind::Tensor, text(prefix.as_str()).lit(".feedforward_layernorm.weight").done());
        TransformerBlock { self_attn, mlp }
    }
}

/// The load steps of the first `n` layers, behind the embedding table.
pub open spec fn stack_steps(args: ModelArgs, n: nat) -> Seq<StepView>
    decreases n,
{
    if n == 0 {
        step(Seq::empty(), StepKind::Embedding, "model.embed_tokens"@)
    } else {
        layer_steps(stack_steps(args, (n - 1) as nat), args, (n - 1) as nat)
    }
}

/// The load steps of a whole model.
pub open spec fn model_steps(args: ModelArgs) -> Seq<StepView> {
    let s = step(stack_steps(args, args.num_hidden_layers as nat), StepKind::Tensor, "model.norm.weight"@);
    if args.tie_word_embeddings { s } else { step(s, StepKind::Linear, "lm_head"@) }
}

/// Apertus.
#[derive(Debug)]
pub struct ApertusModel {
    pub layers: Vec<TransformerBlock>,
    /// Whether the output projection is the embedding table.
    pub tied: bool,
}

impl ApertusModel {
    /// The number of layers, each with a cache of its own.
    pub fn num_layers(&self) -> (r: usize)
        ensures r == self.layers@.len(),
    {
        self.layers.len()
    }

    /// The ids that end a generation: the end of text, of an assistant turn, and of a tool call.
    pub fn eos_token_ids(&self) -> (r: Vec<i32>)
        ensures r@ == seq![2i32, 68, 72],
    {
        let r: Vec<i32> = vec![2i32, 68, 72];
        assert(r@ =~= seq![2i32, 68, 72]);
        r
    }

    /// The model that a config describes, with its load steps.
    pub fn from_weights(args: &ModelArgs) -> (r: (Self, Steps))
        requires args.num_attention_heads > 0,
        ensures
            r.0.layers@.len() == args.num_hidden_layers,
            forall|i: int| 0 <= i < r.0.layers@.len() ==> (#[trigger] r.0.layers@[i]).self_attn.follows(*args),
            r.0.tied == args.tie_word_embeddings,
            r.1@ == model_steps(*args),
    {
        let mut steps: Steps = Steps::new();
        steps.push(StepKind::Embedding, "model.embed_tokens".to_owned());
        assert(steps@ =~= stack_steps(*args, 0));
        let mut layers: Vec<TransformerBlock> = Vec::new();
        let mut i: usize = 0;
        while i < args.num_hidden_layers
            invariant
                i <= args.num_hidden_layers,
                args.num_attention_heads > 0,
                layers@.len() == i,
                steps@ == stack_steps(*args, i as nat),
                forall|j: int| 0 <= j < i ==> (#[trigger] layers@[j]).self_attn.follows(*args),
            decreases args.num_hidden_layers - i,
        {
            let layer: TransformerBlock = TransformerBlock::from_weights(args, i, &mut steps);
            layers.push(layer);
            i = i + 1;
        }
        steps.push(StepKind::Tensor, "model.norm.weight".to_owned());
        if !args.tie_word_embeddings {
            steps.push(StepKind::Linear, "lm_head".to_owned());
        }
        (ApertusModel { layers, tied: args.tie_word_embeddings }, steps)
    }
}

} // verus!
