//! Baichuan: a fused query/key/value projection, a two-tap convolution over keys and values, and
//! sliding-window layers with head counts of their own.
use vstd::prelude::*;
use vstd::string::*;
use crate::plan::{attend_causal, causal_unless_masked, fits_mul, AttendPlan, HeadPlan, QkvCut, Rope};
use crate::single::Single;
use crate::steps::{step, StepKind, StepView, Steps};
use crate::text::text;
use crate::weights::{layer_name, layer_prefix};

verus! {

/// Baichuan `config.json`.
#[derive(Clone, Debug)]
pub struct BaichuanConfig {
    pub model_type: String,
    pub vocab_size: usize,
    pub hidden_size: usize,
    pub intermediate_size: usize,
    pub num_hidden_layers: usize,
    pub num_attention_heads: usize,
    pub num_key_value_heads: usize,
    pub rope_theta: Single,
    pub sliding_window: usize,
    pub sliding_window_layers: Vec<usize>,
    pub conv_window: usize,
    pub rms_norm_eps: Single,
    pub num_swa_attention_heads: Option<usize>,
    pub num_swa_key_value_heads: Option<usize>,
    pub tie_word_embeddings: bool,
    pub quantization: Option<QuantizationConfig>,
}

/// The `quantization` block.
#[derive(Clone, Copy, Debug)]
pub struct QuantizationConfig {
    pub group_size: i32,
    pub bits: i32,
}

impl BaichuanConfig {
    /// Layer `i` uses sliding-window attention.
    pub open spec fn slides(&self, i: usize) -> bool {
        self.sliding_window_layers@.contains(i)
    }

    /// Query heads of layer `i`.
    pub open spec fn heads(&self, i: usize) -> usize {
        match self.num_swa_attention_heads {
            Some(n) if self.slides(i) => n,
            _ => self.num_attention_heads,
        }
    }

    /// Key/value heads of layer `i`.
    pub open spec fn kv_heads(&self, i: usize) -> usize {
        match self.num_swa_key_value_heads {
            Some(n) if self.slides(i) => n,
            _ => self.num_key_value_heads,
        }
    }

    pub fn head_dim(&self) -> (r: usize)
        requires self.num_attention_heads > 0,
        ensures r as int == self.hidden_size as int / self.num_attention_heads as int,
    {
        self.hidden_size / self.num_attention_heads
    }

    /// Whether a layer is on the sliding-window list.
    pub fn is_sliding_layer(&self, layer_idx: usize) -> (r: bool)
        ensures r == self.slides(layer_idx),
    {
        let mut i: usize = 0;
        while i < self.sliding_window_layers.len()
            invariant
                i <= self.sliding_window_layers@.len(),
                forall|j: int| 0 <= j < i ==> self.sliding_window_layers@[j] != layer_idx,
            decreases self.sliding_window_layers@.len() - i,
        {
            if self.sliding_window_layers[i] == layer_idx {
                return true;
            }
            i = i + 1;
        }
        false
    }

    /// Query heads of a layer, which follow its kind.
    pub fn layer_heads(&self, layer_idx: usize) -> (r: usize)
        ensures r == self.heads(layer_idx),
    {
        match self.num_swa_attention_heads {
            Some(n) => if self.is_sliding_layer(layer_idx) { n } else { self.num_attention_heads },
            None => self.num_attention_heads,
        }
    }

    pub open spec fn spec_group_size(&self) -> i32 {
        match self.quantization {
            Some(q) => q.group_size,
            None => 64,
        }
    }

    pub open spec fn spec_bits(&self) -> i32 {
        match self.quantization {
            Some(q) => q.bits,
            None => 4,
        }
    }

    pub fn group_size(&self) -> (r: i32)
        ensures r == self.spec_group_size(),
    {
        match &self.quantization {
            Some(q) => q.group_size,
            None => 64,
        }
    }

    pub fn bits(&self) -> (r: i32)
        ensures r == self.spec_bits(),
    {
        match &self.quantization {
            Some(q) => q.bits,
            None => 4,
        }
    }
}

/// Where the token before each token of a key or value block comes from: one step out of the carried
/// state, or zeros without one, then the block's own tokens but the last.
#[derive(Clone, Copy, Debug)]
pub struct ConvPlan {
    pub batch: i32,
    pub heads: i32,
    pub width: i32,
    /// Taps per head.
    pub taps: i32,
    /// The tap that weighs the token before.
    pub previous_tap: i32,
    /// The tap that weighs the token itself.
    pub own_tap: i32,
    /// Whether the first step comes from the carried state.
    pub carried: bool,
    /// Past-last own token behind that step, where the block has more than one.
    pub own: Option<i32>,
}

/// One attention block.
#[derive(Debug)]
pub struct BaichuanAttention {
    pub n_heads: i32,
    pub n_kv_heads: i32,
    pub head_dim: i32,
    pub rope_base: Single,
    pub is_swa: bool,
    pub sliding_window: Option<i32>,
    pub conv_window: i32,
}

/// What one pass through an attention block decides.
#[derive(Clone, Copy, Debug)]
pub struct BaichuanPlan {
    pub cut: QkvCut,
    pub heads: HeadPlan,
    /// First and past-last token whose keys and values are carried to the next pass.
    pub keep: (i32, i32),
}

/// The load steps of an attention block.
pub open spec fn attention_steps(s: Seq<StepView>, prefix: Seq<char>) -> Seq<StepView> {
    let s = step(s, StepKind::Tensor, prefix + ".conv_k"@);
    let s = step(s, StepKind::Tensor, prefix + ".conv_v"@);
    let s = step(s, StepKind::Linear, prefix + ".W_pack"@);
    step(s, StepKind::Linear, prefix + ".o_proj"@)
}

impl BaichuanAttention {
    /// The block that a config describes at layer `i`.
    pub open spec fn follows(&self, cfg: BaichuanConfig, i: usize) -> bool {
        &&& self.is_swa == cfg.slides(i)
        &&& self.n_heads == cfg.heads(i) as i32
        &&& self.n_kv_heads == cfg.kv_heads(i) as i32
        &&& self.head_dim == (cfg.hidden_size / cfg.heads(i)) as usize as i32
        &&& self.rope_base.is_copy_of(cfg.rope_theta)
        &&& self.sliding_window == (if cfg.slides(i) { Some(cfg.sliding_window as i32) } else { None })
        &&& self.conv_window == cfg.conv_window as i32
    }

    /// The block that a config describes, with its load steps. The head width follows the head count
    /// of the layer's kind.
    pub fn from_weights(prefix: &str, cfg: &BaichuanConfig, layer_idx: usize, steps: &mut Steps) -> (r: Self)
        requires 0 < cfg.heads(layer_idx) <= i32::MAX,
        ensures
            r.follows(*cfg, layer_idx),
            final(steps)@ == attention_steps(old(steps)@, prefix@),
    {
        let is_swa: bool = cfg.is_sliding_layer(layer_idx);
        let heads: usize = cfg.layer_heads(layer_idx);
        let kv: usize = match cfg.num_swa_key_value_heads {
            Some(n) => if is_swa { n } else { cfg.num_key_value_heads },
            None => cfg.num_key_value_heads,
        };
        steps.push(StepKind::Tensor, text(prefix).lit(".conv_k").done());
        steps.push(StepKind::Tensor, text(prefix).lit(".conv_v").done());
        steps.push(StepKind::Linear, text(prefix).lit(".W_pack").done());
        steps.push(StepKind::Linear, text(prefix).lit(".o_proj").done());
        BaichuanAttention {
            n_heads: heads as i32,
            n_kv_heads: kv as i32,
            head_dim: (cfg.hidden_size / heads) as i32,
            rope_base: cfg.rope_theta.copy(),
            is_swa,
            sliding_window: if is_swa { Some(cfg.sliding_window as i32) } else { None },
            conv_window: cfg.conv_window as i32,
        }
    }

    /// The two-tap convolution over a block `[batch, heads, length, width]`.
    pub fn custom_convolution(&self, u: &Vec<i32>, has_state: bool) -> (r: ConvPlan)
        requires u@.len() >= 4,
        ensures
            r == (ConvPlan {
                batch: u@[0],
                heads: u@[1],
                width: u@[3],
                taps: self.conv_window,
                previous_tap: 0,
                own_tap: 1,
                carried: has_state,
                own: if u@[2] > 1 { Some((u@[2] - 1) as i32) } else { None },
            }),
    {
        let l: i32 = u[2];
        let own: Option<i32> = if l > 1 { Some(l - 1) } else { None };
        ConvPlan {
            batch: u[0],
            heads: u[1],
            width: u[3],
            taps: self.conv_window,
            previous_tap: 0,
            own_tap: 1,
            carried: has_state,
            own,
        }
    }

    /// The cut of the fused projection of `[batch, length, hidden]`, the head split, its rotation
    /// from `offset` on, and the last token, which the next pass convolves with.
    pub fn forward(&self, x: &Vec<i32>, offset: i32) -> (r: BaichuanPlan)
        requires
            x@.len() >= 3,
            x@[1] > i32::MIN,
            fits_mul(self.n_heads as int, self.head_dim as int),
            fits_mul(self.n_kv_heads as int, self.head_dim as int),
            i32::MIN <= x@[2] + self.n_kv_heads * self.head_dim <= i32::MAX,
            i32::MIN <= x@[2] + 2 * (self.n_kv_heads * self.head_dim) <= i32::MAX,
            i32::MIN <= 2 * (self.n_kv_heads * self.head_dim) <= i32::MAX,
        ensures
            ({
                let kv = self.n_kv_heads * self.head_dim;
                &&& r.cut == QkvCut { q_end: x@[2], k_end: (x@[2] + kv) as i32, v_end: (x@[2] + 2 * kv) as i32 }
                &&& r.heads == HeadPlan {
                    batch: x@[0],
                    length: x@[1],
                    q_heads: self.n_heads,
                    kv_heads: self.n_kv_heads,
                    head_dim: self.head_dim,
                    rope: Some(Rope { dims: self.head_dim, traditional: false, offset }),
                    width: (self.n_heads * self.head_dim) as i32,
                }
                &&& r.keep == ((x@[1] - 1) as i32, x@[1])
            }),
    {
        let dim: i32 = x[2];
        let l: i32 = x[1];
        let kv: i32 = self.n_kv_heads * self.head_dim;
        BaichuanPlan {
            cut: QkvCut { q_end: dim, k_end: dim + kv, v_end: dim + 2 * kv },
            heads: HeadPlan {
                batch: x[0],
                length: l,
                q_heads: self.n_heads,
                kv_heads: self.n_kv_heads,
                head_dim: self.head_dim,
                rope: Some(Rope { dims: self.head_dim, traditional: false, offset }),
                width: self.n_heads * self.head_dim,
            },
            keep: (l - 1, l),
        }
    }

    /// The kernel that reads the cached keys.
    pub fn attend(&self, length: i32, has_mask: bool) -> (r: AttendPlan)
        ensures
            r == causal_unless_masked(length, has_mask, match self.sliding_window { Some(w) => w, None => 0 }),
    {
        let window: i32 = match self.sliding_window {
            Some(w) => w,
            None => 0,
        };
        attend_causal(length, has_mask, window)
    }
}

/// The position of the token that the convolution puts before token `t`, in a pass that begins at
/// position `start`: the carried token's for the first, then the pass's own as far as the plan
/// takes them; nothing where zeros stand in.
pub open spec fn predecessor(plan: ConvPlan, start: int, kept: int, t: int) -> Option<int> {
    if t == 0 {
        if plan.carried { Some(kept) } else { None }
    } else {
        match plan.own {
            Some(n) => if t - 1 < n { Some(start + (t - 1)) } else { None },
            None => None,
        }
    }
}

/// A sequence can be cut into passes anywhere: every token is convolved with the token right before
/// it, also when that one was the last of the pass before, which is the one that pass keeps.
pub proof fn convolution_continues_across_passes(
    before: BaichuanPlan,
    before_start: int,
    before_len: i32,
    plan: ConvPlan,
    len: i32,
    t: int,
)
    requires
        before_len >= 1,
        before.keep == ((before_len - 1) as i32, before_len),
        plan.carried,
        plan.own == (if len > 1 { Some((len - 1) as i32) } else { None }),
        0 <= t < len,
    ensures
        predecessor(plan, before_start + before_len, before_start + before.keep.0, t) == Some(
            before_start + before_len + t - 1,
        ),
{
}

/// The load steps of a SwiGLU block.
pub open spec fn mlp_steps(s: Seq<StepView>, prefix: Seq<char>) -> Seq<StepView> {
    let s = step(s, StepKind::Linear, prefix + ".gate_proj"@);
    let s = step(s, StepKind::Linear, prefix + ".down_proj"@);
    step(s, StepKind::Linear, prefix + ".up_proj"@)
}

/// A SwiGLU block.
#[derive(Clone, Copy, Debug)]
pub struct BaichuanMLP {}

impl BaichuanMLP {
    /// The block with its load steps.
    pub fn from_weights(prefix: &str, steps: &mut Steps) -> (r: Self)
        ensures final(steps)@ == mlp_steps(old(steps)@, prefix@),
    {
        steps.push(StepKind::Linear, text(prefix).lit(".gate_proj").done());
        steps.push(StepKind::Linear, text(prefix).lit(".down_proj").done());
        steps.push(StepKind::Linear, text(prefix).lit(".up_proj").done());
        BaichuanMLP {}
    }
}

/// One decoder block.
#[derive(Debug)]
pub struct BaichuanDecoderLayer {
    pub self_attn: BaichuanAttention,
    pub mlp: BaichuanMLP,
}

/// The load steps of layer `i`.
pub open spec fn layer_steps(s: Seq<StepView>, i: nat) -> Seq<StepView> {
    let p = layer_name(i);
    let s = attention_steps(s, p + ".self_attn"@);
    let s = mlp_steps(s, p + ".mlp"@);
    let s = step(s, StepKind::Tensor, p + ".input_layernorm.weight"@);
    step(s, StepKind::Tensor, p + ".post_attention_layernorm.weight"@)
}

impl BaichuanDecoderLayer {
    /// The block that a config describes, with its load steps.
    pub fn from_weights(cfg: &BaichuanConfig, layer_idx: usize, steps: &mut Steps) -> (r: Self)
        requires 0 < cfg.heads(layer_idx) <= i32::MAX,
        ensures
            r.self_attn.follows(*cfg, layer_idx),
            final(steps)@ == layer_steps(old(steps)@, layer_idx as nat),
    {
        let prefix: String = layer_prefix(layer_idx);
        let attn: String = text(prefix.as_str()).lit(".self_attn").done();
        let mlp_key: String = text(prefix.as_str()).lit(".mlp").done();
        let self_attn: BaichuanAttention = BaichuanAttention::from_weights(attn.as_str(), cfg, layer_idx, steps);
        let mlp: BaichuanMLP = BaichuanMLP::from_weights(mlp_key.as_str(), steps);
        steps.push(StepKind::Tensor, text(prefix.as_str()).lit(".input_layernorm.weight").done());
        steps.push(StepKind::Tensor, text(prefix.as_str()).lit(".post_attention_layernorm.weight").done());
        BaichuanDecoderLayer { self_attn, mlp }
    }
}

/// The carried key and value of each layer.
#[derive(Debug)]
pub struct ConvStates<T> {
    pub states: Vec<Option<(T, T)>>,
}

impl<T> ConvStates<T> {
    /// Nothing carried, for `n` layers.
    pub fn new(n: usize) -> (r: Self)
        ensures r.states@ == Seq::new(n as nat, |i: int| None::<(T, T)>),
    {
        let mut states: Vec<Option<(T, T)>> = Vec::new();
        let mut i: usize = 0;
        while i < n
            invariant
                i <= n,
                states@ =~= Seq::new(i as nat, |i: int| None::<(T, T)>),
            decreases n - i,
        {
            states.push(None);
            i = i + 1;
        }
        ConvStates { states }
    }

    /// Forgets what every layer carries.
    pub fn reset_conv_states(&mut self)
        ensures final(self).states@ == Seq::new(old(self).states@.len(), |i: int| None::<(T, T)>),
    {
        let n: usize = self.states.len();
        *self = ConvStates::new(n);
    }
}

/// The load steps of the first `n` layers, behind the embedding table.
pub open spec fn stack_steps(n: nat) -> Seq<StepView>
    decreases n,
{
    if n == 0 {
        step(Seq::empty(), StepKind::Embedding, "model.embed_tokens"@)
    } else {
        layer_steps(stack_steps((n - 1) as nat), (n - 1) as nat)
    }
}

/// The load steps of a whole model.
pub open spec fn model_steps(cfg: BaichuanConfig) -> Seq<StepView> {
    let s = step(stack_steps(cfg.num_hidden_layers as nat), StepKind::Tensor, "model.norm.weight"@);
    if cfg.tie_word_embeddings { s } else { step(s, StepKind::Linear, "lm_head"@) }
}

/// Baichuan.
#[derive(Debug)]
pub struct BaichuanModel {
    pub layers: Vec<BaichuanDecoderLayer>,
    /// Whether the output projection is the embedding table.
    pub tied: bool,
}

impl BaichuanModel {
    /// The number of layers, each with a cache and a carried state of its own.
    pub fn num_layers(&self) -> (r: usize)
        ensures r == self.layers@.len(),
    {
        self.layers.len()
    }

    /// The id that ends a generation.
    pub fn eos_token_ids(&self) -> (r: Vec<i32>)
        ensures r@ == seq![2i32],
    {
        let r: Vec<i32> = vec![2i32];
        assert(r@ =~= seq![2i32]);
        r
    }

    /// The model that a config describes, with its load steps.
    pub fn from_weights(cfg: &BaichuanConfig) -> (r: (Self, Steps))
        requires
            forall|i: usize| i < cfg.num_hidden_layers ==> 0 < #[trigger] cfg.heads(i) <= i32::MAX,
        ensures
            r.0.layers@.len() == cfg.num_hidden_layers,
            forall|i: int| 0 <= i < r.0.layers@.len() ==> (#[trigger] r.0.layers@[i]).self_attn.follows(*cfg, i as usize),
            r.0.tied == cfg.tie_word_embeddings,
            r.1@ == model_steps(*cfg),
    {
        let mut steps: Steps = Steps::new();
        steps.push(StepKind::Embedding, "model.embed_tokens".to_owned());
        assert(steps@ =~= stack_steps(0));
        let mut layers: Vec<BaichuanDecoderLayer> = Vec::new();
        let mut i: usize = 0;
        while i < cfg.num_hidden_layers
            invariant
                i <= cfg.num_hidden_layers,
                forall|i: usize| i < cfg.num_hidden_layers ==> 0 < #[trigger] cfg.heads(i) <= i32::MAX,
                layers@.len() == i,
                steps@ == stack_steps(i as nat),
                forall|j: int| 0 <= j < i ==> (#[trigger] layers@[j]).self_attn.follows(*cfg, j as usize),
            decreases cfg.num_hidden_layers - i,
        {
            let layer: BaichuanDecoderLayer = BaichuanDecoderLayer::from_weights(cfg, i, &mut steps);
            layers.push(layer);
            i = i + 1;
        }
        steps.push(StepKind::Tensor, "model.norm.weight".to_owned());
        if !cfg.tie_word_embeddings {
            steps.push(StepKind::Linear, "lm_head".to_owned());
        }
        (BaichuanModel { layers, tied: cfg.tie_word_embeddings }, steps)
    }
}

} // verus!
