//! Cohere2 (Command R+): sliding-window attention with a global layer at the end of each group, a
//! rotation on the sliding layers only, and attention and MLP in parallel.
use vstd::prelude::*;
use vstd::string::*;
use crate::plan::{fits_mul, AttendPlan, HeadPlan, Kernel, Rope};
use crate::single::Single;
use crate::steps::{step, StepKind, StepView, Steps};
use crate::text::text;
use crate::weights::{copy_shape, layer_name, layer_prefix};

verus! {

/// Cohere2 `config.json`.
#[derive(Clone, Debug)]
pub struct Cohere2Config {
    pub model_type: String,
    pub hidden_size: usize,
    pub num_hidden_layers: usize,
    pub intermediate_size: usize,
    pub num_attention_heads: usize,
    pub num_key_value_heads: usize,
    pub rope_theta: Single,
    pub vocab_size: usize,
    pub layer_norm_eps: Single,
    pub logit_scale: Single,
    pub head_dim: usize,
    pub sliding_window: usize,
    pub sliding_window_pattern: Option<usize>,
    /// Another name for `sliding_window_pattern`.
    pub layer_switch: Option<usize>,
    pub attention_bias: bool,
    pub layer_norm_bias: bool,
    pub tie_word_embeddings: bool,
    /// Another name for `tie_word_embeddings`.
    pub use_embedding_sharing: bool,
    pub quantization: Option<QuantizationConfig>,
    pub bos_token_id: Option<i32>,
    pub eos_token_id: Option<EosTokenId>,
}

/// `eos_token_id` may be a single int or a list of ints.
#[derive(Clone, Debug)]
pub enum EosTokenId {
    Single(i32),
    Multiple(Vec<i32>),
}

/// The ids that end a generation; the family's own where the config names none.
pub open spec fn eos_ids(field: Option<EosTokenId>) -> Seq<i32> {
    match field {
        Some(EosTokenId::Single(id)) => seq![id],
        Some(EosTokenId::Multiple(ids)) => ids@,
        None => seq![255001i32],
    }
}

/// The ids that end a generation.
pub fn eos_token_ids(field: &Option<EosTokenId>) -> (r: Vec<i32>)
    ensures r@ == eos_ids(*field),
{
    match field {
        Some(EosTokenId::Single(id)) => {
            let r: Vec<i32> = vec![*id];
            assert(r@ =~= seq![*id]);
            r
        },
        Some(EosTokenId::Multiple(ids)) => copy_shape(ids),
        None => {
            let r: Vec<i32> = vec![255001i32];
            assert(r@ =~= seq![255001i32]);
            r
        },
    }
}

/// The `quantization` block.
#[derive(Clone, Copy, Debug)]
pub struct QuantizationConfig {
    pub group_size: i32,
    pub bits: i32,
}

impl Cohere2Config {
    /// Layers per group; the last of each is global.
    pub open spec fn pattern(&self) -> usize {
        match self.sliding_window_pattern {
            Some(n) => n,
            None => match self.layer_switch {
                Some(n) => n,
                None => 4,
            },
        }
    }

    /// Layer `i` uses sliding-window attention.
    pub open spec fn slides(&self, i: int) -> bool {
        self.pattern() == 0 || (i + 1) % self.pattern() as int != 0
    }

    /// Layers per group, from either field.
    pub fn get_sliding_window_pattern(&self) -> (r: usize)
        ensures r == self.pattern(),
    {
        match self.sliding_window_pattern {
            Some(n) => n,
            None => match self.layer_switch {
                Some(n) => n,
                None => 4,
            },
        }
    }

    /// Whether the output projection is the embedding table, from either field.
    pub fn should_tie_embeddings(&self) -> (r: bool)
        ensures r == (self.tie_word_embeddings || self.use_embedding_sharing),
    {
        self.tie_word_embeddings || self.use_embedding_sharing
    }

    /// Whether a layer uses sliding-window attention: all but the last of each group do.
    pub fn is_sliding_window_layer(&self, layer_idx: usize) -> (r: bool)
        requires layer_idx < usize::MAX,
        ensures r == self.slides(layer_idx as int),
    {
        let pattern: usize = self.get_sliding_window_pattern();
        if pattern == 0 { true } else { (layer_idx + 1) % pattern != 0 }
    }

    pub open spec fn spec_group_size(&self) -> i32 {
        match self.quantization {
            Some(q) => q.group_size,
            None => 64,
        }
    }

    pub open spec fn spec_bits(&self) -> i32 {
        match self.quantization {
            Some(q) => q.bits,
            None => 4,
        }
    }

    pub fn group_size(&self) -> (r: i32)
        ensures r == self.spec_group_size(),
    {
        match &self.quantization {
            Some(q) => q.group_size,
            None => 64,
        }
    }

    pub fn bits(&self) -> (r: i32)
        ensures r == self.spec_bits(),
    {
        match &self.quantization {
            Some(q) => q.bits,
            None => 4,
        }
    }

    /// `r` is the first sliding layer, or zero where there is none.
    pub open spec fn starts_sliding_at(&self, r: usize) -> bool {
        if exists|j: int| 0 <= j < self.num_hidden_layers && self.slides(j) {
            r < self.num_hidden_layers && self.slides(r as int) && forall|j: int| 0 <= j < r ==> !self.slides(j)
        } else {
            r == 0
        }
    }

    /// `r` is the first global layer, or the end of the first group where the stack does not reach
    /// it.
    pub open spec fn goes_global_at(&self, r: usize) -> bool {
        if exists|j: int| 0 <= j < self.num_hidden_layers && !self.slides(j) {
            r < self.num_hidden_layers && !self.slides(r as int) && forall|j: int| 0 <= j < r ==> self.slides(j)
        } else {
            r == self.pattern() - 1
        }
    }

    /// The first sliding layer; zero where there is none.
    pub fn first_sliding(&self) -> (r: usize)
        ensures self.starts_sliding_at(r),
    {
        let mut i: usize = 0;
        while i < self.num_hidden_layers
            invariant
                i <= self.num_hidden_layers,
                forall|j: int| 0 <= j < i ==> !self.slides(j),
            decreases self.num_hidden_layers - i,
        {
            if self.is_sliding_window_layer(i) {
                return i;
            }
            i = i + 1;
        }
        0
    }

    /// The first global layer; the end of the first group where the stack does not reach it.
    pub fn first_global(&self) -> (r: usize)
        requires self.pattern() > 0,
        ensures self.goes_global_at(r),
    {
        let mut i: usize = 0;
        while i < self.num_hidden_layers
            invariant
                i <= self.num_hidden_layers,
                forall|j: int| 0 <= j < i ==> self.slides(j),
            decreases self.num_hidden_layers - i,
        {
            if !self.is_sliding_window_layer(i) {
                return i;
            }
            i = i + 1;
        }
        self.get_sliding_window_pattern() - 1
    }
}

/// Every group has its global layer at its end, and nowhere else.
pub proof fn group_ends_are_global(args: Cohere2Config, group: int, k: int)
    requires
        args.pattern() > 0,
        group >= 0,
        0 <= k < args.pattern(),
    ensures
        args.slides(group * args.pattern() + k) <==> k != args.pattern() - 1,
{
    let n = args.pattern() as int;
    let i = group * n + k;
    assert(i + 1 == n * group + (k + 1)) by (nonlinear_arith) requires i == group * n + k;
    if k == n - 1 {
        assert(i + 1 == (group + 1) * n) by (nonlinear_arith) requires i + 1 == n * group + (k + 1), k == n - 1;
        vstd::arithmetic::div_mod::lemma_mod_multiples_basic(group + 1, n);
    } else {
        vstd::arithmetic::div_mod::lemma_fundamental_div_mod_converse(i + 1, n, group, k + 1);
    }
}

/// The first global layer ends the first group, whether or not the stack reaches it.
pub proof fn first_global_layer_ends_the_first_group(args: Cohere2Config, r: usize)
    requires
        args.pattern() > 0,
        args.goes_global_at(r),
    ensures
        r == args.pattern() - 1,
{
    let n = args.pattern() as int;
    if r < n - 1 {
        group_ends_are_global(args, 0, r as int);
    } else {
        group_ends_are_global(args, 0, n - 1);
    }
}

/// One attention block over a fused projection.
#[derive(Debug)]
pub struct Cohere2Attention {
    pub num_heads: i32,
    pub num_kv_heads: i32,
    pub head_dim: i32,
    pub rope_dims: i32,
    pub rope_base: Single,
    pub use_sliding_window: bool,
    pub window_size: i32,
}

/// The load steps of an attention block.
pub open spec fn attention_steps(s: Seq<StepView>, prefix: Seq<char>) -> Seq<StepView> {
    step(step(s, StepKind::Linear, prefix + ".o_proj"@), StepKind::FusedQkv, prefix)
}

impl Cohere2Attention {
    /// The head split of an input `[batch, length, hidden]`; a sliding layer rotates from `offset`
    /// on, a global one does not rotate.
    pub fn forward(&self, x: &Vec<i32>, offset: i32) -> (r: HeadPlan)
        requires
            x@.len() >= 2,
            fits_mul(self.num_heads as int, self.head_dim as int),
        ensures
            r == (HeadPlan {
                batch: x@[0],
                length: x@[1],
                q_heads: self.num_heads,
                kv_heads: self.num_kv_heads,
                head_dim: self.head_dim,
                rope: if self.use_sliding_window { Some(Rope { dims: self.rope_dims, traditional: true, offset }) } else { None },
                width: (self.num_heads * self.head_dim) as i32,
            }),
    {
        let rope: Option<Rope> = if self.use_sliding_window { Some(Rope { dims: self.rope_dims, traditional: true, offset }) } else { None };
        HeadPlan {
            batch: x[0],
            length: x[1],
            q_heads: self.num_heads,
            kv_heads: self.num_kv_heads,
            head_dim: self.head_dim,
            rope,
            width: self.num_heads * self.head_dim,
        }
    }

    /// What attention reads of `k_len` cached keys. A prompt on a windowed layer reads the last
    /// `window_size` of them, to match its capped mask; a single token leaves that to the kernel.
    pub open spec fn attend_plan(&self, length: i32, k_len: i32) -> AttendPlan {
        if length > 1 {
            AttendPlan {
                keys: if self.window_size > 0 && k_len > self.window_size {
                    Some(((k_len - self.window_size) as i32, k_len))
                } else {
                    None
                },
                kernel: Kernel::Masked { window: self.window_size },
            }
        } else {
            AttendPlan { keys: None, kernel: Kernel::Causal { window: self.window_size } }
        }
    }

    /// What attention reads of `k_len` cached keys, and with which kernel.
    pub fn attend(&self, length: i32, k_len: i32) -> (r: AttendPlan)
        ensures r == self.attend_plan(length, k_len),
    {
        if length > 1 {
            let keys: Option<(i32, i32)> = if self.window_size > 0 && k_len > self.window_size {
                Some((k_len - self.window_size, k_len))
            } else {
                None
            };
            AttendPlan { keys, kernel: Kernel::Masked { window: self.window_size } }
        } else {
            AttendPlan { keys: None, kernel: Kernel::Causal { window: self.window_size } }
        }
    }

    /// The block that a config describes at layer `i`.
    pub open spec fn follows(&self, args: Cohere2Config, i: int) -> bool {
        &&& self.num_heads == args.num_attention_heads as i32
        &&& self.num_kv_heads == args.num_key_value_heads as i32
        &&& self.head_dim == args.head_dim as i32
        &&& self.rope_dims == args.head_dim as i32
        &&& self.rope_base.is_copy_of(args.rope_theta)
        &&& self.use_sliding_window == args.slides(i)
        &&& self.window_size == (if args.slides(i) { args.sliding_window as i32 } else { 0 })
    }

    /// The block that a config describes, with its load steps.
    pub fn from_weights(args: &Cohere2Config, layer_idx: usize, prefix: &str, steps: &mut Steps) -> (r: Self)
        requires layer_idx < usize::MAX,
        ensures
            r.follows(*args, layer_idx as int),
            final(steps)@ == attention_steps(old(steps)@, prefix@),
    {
        let use_sliding_window: bool = args.is_sliding_window_layer(layer_idx);
        steps.push(StepKind::Linear, text(prefix).lit(".o_proj").done());
        steps.push(StepKind::FusedQkv, prefix.to_owned());
        let head_dim: i32 = args.head_dim as i32;
        Cohere2Attention {
            num_heads: args.num_attention_heads as i32,
            num_kv_heads: args.num_key_value_heads as i32,
            head_dim,
            rope_dims: head_dim,
            rope_base: args.rope_theta.copy(),
            use_sliding_window,
            window_size: if use_sliding_window { args.sliding_window as i32 } else { 0 },
        }
    }
}

/// A prompt on a windowed layer never reads more keys than its window, and reads the newest.
pub proof fn prompt_reads_the_newest_window(a: Cohere2Attention, length: i32, k_len: i32)
    requires
        length > 1,
        a.window_size > 0,
    ensures
        a.attend_plan(length, k_len).keys matches Some((start, stop)) ==> {
            &&& stop == k_len
            &&& stop - start == a.window_size
            &&& start > 0
        },
        a.attend_plan(length, k_len).keys is None ==> k_len <= a.window_size,
{
}

/// The load steps of a SwiGLU block.
pub open spec fn mlp_steps(s: Seq<StepView>, prefix: Seq<char>) -> Seq<StepView> {
    let s = step(s, StepKind::Linear, prefix + ".gate_proj"@);
    let s = step(s, StepKind::Linear, prefix + ".up_proj"@);
    step(s, StepKind::Linear, prefix + ".down_proj"@)
}

/// A SwiGLU block.
#[derive(Clone, Copy, Debug)]
pub struct Cohere2MLP {}

impl Cohere2MLP {
    /// The block with its load steps.
    pub fn from_weights(prefix: &str, steps: &mut Steps) -> (r: Self)
        ensures final(steps)@ == mlp_steps(old(steps)@, prefix@),
    {
        steps.push(StepKind::Linear, text(prefix).lit(".gate_proj").done());
        steps.push(StepKind::Linear, text(prefix).lit(".up_proj").done());
        steps.push(StepKind::Linear, text(prefix).lit(".down_proj").done());
        Cohere2MLP {}
    }
}

/// The load steps of a LayerNorm: its weight, and its bias where one is stored.
pub open spec fn norm_steps(s: Seq<StepView>, prefix: Seq<char>) -> Seq<StepView> {
    step(step(s, StepKind::Tensor, prefix + ".weight"@), StepKind::OptionalTensor, prefix + ".bias"@)
}

fn load_norm(prefix: &str, steps: &mut Steps)
    ensures final(steps)@ == norm_steps(old(steps)@, prefix@),
{
    steps.push(StepKind::Tensor, text(prefix).lit(".weight").done());
    steps.push(StepKind::OptionalTensor, text(prefix).lit(".bias").done());
}

/// One parallel block.
#[derive(Debug)]
pub struct Cohere2TransformerBlock {
    pub self_attn: Cohere2Attention,
    pub mlp: Cohere2MLP,
}

/// The load steps of layer `i`.
pub open spec fn layer_steps(s: Seq<StepView>, i: nat) -> Seq<StepView> {
    let p = layer_name(i);
    let s = attention_steps(s, p + ".self_attn"@);
    let s = mlp_steps(s, p + ".mlp"@);
    norm_steps(s, p + ".input_layernorm"@)
}

impl Cohere2TransformerBlock {
    /// The block that a config describes, with its load steps.
    pub fn from_weights(args: &Cohere2Config, layer_idx: usize, steps: &mut Steps) -> (r: Self)
        requires layer_idx < usize::MAX,
        ensures
            r.self_attn.follows(*args, layer_idx as int),
            final(steps)@ == layer_steps(old(steps)@, layer_idx as nat),
    {
        let prefix: String = layer_prefix(layer_idx);
        let attn: String = text(prefix.as_str()).lit(".self_attn").done();
        let mlp_key: String = text(prefix.as_str()).lit(".mlp").done();
        let norm: String = text(prefix.as_str()).lit(".input_layernorm").done();
        let self_attn: Cohere2Attention = Cohere2Attention::from_weights(args, layer_idx, attn.as_str(), steps);
        let mlp: Cohere2MLP = Cohere2MLP::from_weights(mlp_key.as_str(), steps);
        load_norm(norm.as_str(), steps);
        Cohere2TransformerBlock { self_attn, mlp }
    }
}

/// The load steps of the first `n` layers, behind the embedding table.
pub open spec fn stack_steps(n: nat) -> Seq<StepView>
    decreases n,
{
    if n == 0 {
        step(Seq::empty(), StepKind::Embedding, "model.embed_tokens"@)
    } else {
        layer_steps(stack_steps((n - 1) as nat), (n - 1) as nat)
    }
}

/// The output projection: the embedding table where the config ties it.
pub open spec fn head_key(args: Cohere2Config) -> Seq<char> {
    if args.tie_word_embeddings || args.use_embedding_sharing { "model.embed_tokens"@ } else { "lm_head"@ }
}

/// The load steps of a whole model.
pub open spec fn model_steps(args: Cohere2Config) -> Seq<StepView> {
    let s = norm_steps(stack_steps(args.num_hidden_layers as nat), "model.norm"@);
    step(s, StepKind::Linear, head_key(args))
}

/// The prefill masks of one forward pass.
#[derive(Clone, Copy, Debug)]
pub struct MaskPlan {
    /// Keys before the prompt under the causal mask.
    pub full: i32,
    /// Keys before the prompt under the windowed mask, and the window.
    pub sliding: (i32, i32),
}

/// Cohere2.
#[derive(Debug)]
pub struct Cohere2Model {
    pub layers: Vec<Cohere2TransformerBlock>,
    /// Where the output projection is read from.
    pub head: String,
    pub sliding_window: i32,
    pub swa_idx: usize,
    pub ga_idx: usize,
    pub eos_token_ids: Vec<i32>,
}

impl Cohere2Model {
    /// The prefill masks, given the position of each layer's cache: none for a single token.
    pub fn forward_impl(&self, seq_len: usize, offsets: &Vec<i32>) -> (r: Option<MaskPlan>)
        requires
            seq_len > 1 ==> self.ga_idx < offsets@.len() && self.swa_idx < offsets@.len(),
        ensures
            r is Some <==> seq_len > 1,
            r matches Some(m) ==> {
                &&& m.full == offsets@[self.ga_idx as int]
                &&& m.sliding == (offsets@[self.swa_idx as int], self.sliding_window)
            },
    {
        if seq_len > 1 {
            Some(MaskPlan { full: offsets[self.ga_idx], sliding: (offsets[self.swa_idx], self.sliding_window) })
        } else {
            None
        }
    }

    /// Whether a layer takes the windowed mask.
    pub fn takes_sliding_mask(&self, layer: usize) -> (r: bool)
        requires layer < self.layers@.len(),
        ensures r == self.layers@[layer as int].self_attn.use_sliding_window,
    {
        self.layers[layer].self_attn.use_sliding_window
    }

    /// The number of layers, each with a cache of its own.
    pub fn num_layers(&self) -> (r: usize)
        ensures r == self.layers@.len(),
    {
        self.layers.len()
    }

    /// The model that a config describes, with its load steps.
    pub fn from_weights(args: &Cohere2Config) -> (r: (Self, Steps))
        requires
            args.pattern() > 0,
        ensures
            r.0.layers@.len() == args.num_hidden_layers,
            forall|i: int| 0 <= i < r.0.layers@.len() ==> (#[trigger] r.0.layers@[i]).self_attn.follows(*args, i),
            r.0.head@ == head_key(*args),
            r.0.sliding_window == args.sliding_window as i32,
            args.starts_sliding_at(r.0.swa_idx),
            args.goes_global_at(r.0.ga_idx),
            r.0.eos_token_ids@ == eos_ids(args.eos_token_id),
            r.1@ == model_steps(*args),
    {
        let mut steps: Steps = Steps::new();
        steps.push(StepKind::Embedding, "model.embed_tokens".to_owned());
        assert(steps@ =~= stack_steps(0));
        let mut layers: Vec<Cohere2TransformerBlock> = Vec::new();
        let mut i: usize = 0;
        while i < args.num_hidden_layers
            invariant
                i <= args.num_hidden_layers,
                layers@.len() == i,
                steps@ == stack_steps(i as nat),
                forall|j: int| 0 <= j < i ==> (#[trigger] layers@[j]).self_attn.follows(*args, j),
            decreases args.num_hidden_layers - i,
        {
            let layer: Cohere2TransformerBlock = Cohere2TransformerBlock::from_weights(args, i, &mut steps);
            layers.push(layer);
            i = i + 1;
        }
        load_norm("model.norm", &mut steps);
        let head: &str = if args.should_tie_embeddings() { "model.embed_tokens" } else { "lm_head" };
        steps.push(StepKind::Linear, head.to_owned());
        let model: Cohere2Model = Cohere2Model {
            layers,
            head: head.to_owned(),
            sliding_window: args.sliding_window as i32,
            swa_idx: args.first_sliding(),
            ga_idx: args.first_global(),
            eos_token_ids: eos_token_ids(&args.eos_token_id),
        };
        (model, steps)
    }
}

} // verus!
