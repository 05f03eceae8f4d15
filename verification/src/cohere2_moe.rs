//! Command MoE (`cohere2_moe`): the Cohere2 backbone with a mixture of experts behind an optional
//! dense prefix, and shared experts beside the routed ones.
use vstd::prelude::*;
use vstd::string::*;
use crate::plan::{
    countable, fits_mul, flat_plan, flatten, AttendPlan, Basis, Divisor, FlatPlan, HeadPlan, Kernel, Precision, Rope,
    RoutePlan, Scoring,
};
use crate::single::Single;
use crate::steps::{step, StepKind, StepView, Steps};
use crate::text::{ascii_lowercase, lower, same, text};
use crate::weights::{copy_shape, layer_name, layer_prefix, WeightMap};

verus! {

/// Cohere2 MoE `config.json`.
#[derive(Clone, Debug)]
pub struct Cohere2MoeConfig {
    pub model_type: String,
    pub hidden_size: usize,
    /// Independent of `hidden_size / num_attention_heads`.
    pub head_dim: usize,
    pub num_hidden_layers: usize,
    pub intermediate_size: usize,
    pub num_attention_heads: usize,
    pub num_key_value_heads: usize,
    pub rope_theta: Single,
    pub vocab_size: usize,
    pub layer_norm_eps: Single,
    /// When present, all norms are RMSNorm with this eps instead of LayerNorm.
    pub rms_norm_eps: Option<Single>,
    pub logit_scale: Single,
    pub attention_bias: bool,
    pub layer_norm_bias: bool,
    pub sliding_window: usize,
    pub sliding_window_pattern: usize,
    /// Per-layer attention kinds; overrides the pattern when present.
    pub layer_types: Option<Vec<String>>,
    pub num_experts: usize,
    pub num_experts_per_tok: usize,
    pub norm_topk_prob: bool,
    pub moe_gate_act: String,
    /// Overrides `moe_gate_act` when present.
    pub expert_selection_fn: Option<String>,
    pub moe_num_shared_experts: usize,
    /// Overrides `moe_num_shared_experts` when present.
    pub num_shared_experts: Option<usize>,
    pub shared_expert_combination_strategy: String,
    /// The first layers use a dense feed-forward block.
    pub first_k_dense_replace: usize,
    /// Width of the dense prefix; `intermediate_size` when absent.
    pub prefix_dense_intermediate_size: Option<usize>,
    /// When 1, the dense prefix layers rotate.
    pub prefix_dense_sliding_window_pattern: usize,
    pub bos_token_id: Option<i32>,
    pub eos_token_id: Option<EosTokenId>,
    pub pad_token_id: Option<i32>,
    pub quantization: Option<QuantizationConfig>,
}

/// `eos_token_id` may be a single int or a list of ints.
#[derive(Clone, Debug)]
pub enum EosTokenId {
    Single(i32),
    Multiple(Vec<i32>),
}

/// The ids that end a generation; the family's own where the config names none.
pub open spec fn eos_ids(field: Option<EosTokenId>) -> Seq<i32> {
    match field {
        Some(EosTokenId::Single(id)) => seq![id],
        Some(EosTokenId::Multiple(ids)) => ids@,
        None => seq![255001i32],
    }
}

/// The ids that end a generation.
pub fn eos_token_ids(field: &Option<EosTokenId>) -> (r: Vec<i32>)
    ensures r@ == eos_ids(*field),
{
    match field {
        Some(EosTokenId::Single(id)) => {
            let r: Vec<i32> = vec![*id];
            assert(r@ =~= seq![*id]);
            r
        },
        Some(EosTokenId::Multiple(ids)) => copy_shape(ids),
        None => {
            let r: Vec<i32> = vec![255001i32];
            assert(r@ =~= seq![255001i32]);
            r
        },
    }
}

/// The `quantization` block.
#[derive(Clone, Copy, Debug)]
pub struct QuantizationConfig {
    pub group_size: i32,
    pub bits: i32,
}

pub fn default_hidden_size() -> (r: usize)
    ensures r == 1024,
{
    1024
}

pub fn default_head_dim() -> (r: usize)
    ensures r == 128,
{
    128
}

pub fn default_num_hidden_layers() -> (r: usize)
    ensures r == 36,
{
    36
}

pub fn default_intermediate_size() -> (r: usize)
    ensures r == 1024,
{
    1024
}

pub fn default_num_attention_heads() -> (r: usize)
    ensures r == 64,
{
    64
}

pub fn default_num_key_value_heads() -> (r: usize)
    ensures r == 8,
{
    8
}

pub fn default_rope_theta() -> (r: Single)
    ensures r.bits == 0x4743_5000, r.text@ == "50000"@,
{
    Single { bits: 0x4743_5000, text: "50000".to_owned() }
}

pub fn default_layer_norm_eps() -> (r: Single)
    ensures r.bits == 0x3727_c5ac, r.text@ == "0.00001"@,
{
    Single { bits: 0x3727_c5ac, text: "0.00001".to_owned() }
}

pub fn default_logit_scale() -> (r: Single)
    ensures r.bits == 0x3d80_0000, r.text@ == "0.0625"@,
{
    Single { bits: 0x3d80_0000, text: "0.0625".to_owned() }
}

pub fn default_vocab_size() -> (r: usize)
    ensures r == 256_000,
{
    256_000
}

pub fn default_sliding_window() -> (r: usize)
    ensures r == 4096,
{
    4096
}

pub fn default_sliding_window_pattern() -> (r: usize)
    ensures r == 4,
{
    4
}

pub fn default_num_experts() -> (r: usize)
    ensures r == 128,
{
    128
}

pub fn default_num_experts_per_tok() -> (r: usize)
    ensures r == 8,
{
    8
}

pub fn default_true() -> (r: bool)
    ensures r,
{
    true
}

pub fn default_moe_gate_act() -> (r: String)
    ensures r@ == "sigmoid"@,
{
    "sigmoid".to_owned()
}

pub fn default_moe_num_shared_experts() -> (r: usize)
    ensures r == 4,
{
    4
}

pub fn default_shared_combination() -> (r: String)
    ensures r@ == "average"@,
{
    "average".to_owned()
}

pub fn default_prefix_dense_sliding_window_pattern() -> (r: usize)
    ensures r == 1,
{
    1
}

impl Cohere2MoeConfig {
    pub open spec fn spec_group_size(&self) -> i32 {
        match self.quantization {
            Some(q) => q.group_size,
            None => 64,
        }
    }

    pub open spec fn spec_bits(&self) -> i32 {
        match self.quantization {
            Some(q) => q.bits,
            None => 4,
        }
    }

    pub fn group_size(&self) -> (r: i32)
        ensures r == self.spec_group_size(),
    {
        match &self.quantization {
            Some(q) => q.group_size,
            None => 64,
        }
    }

    pub fn bits(&self) -> (r: i32)
        ensures r == self.spec_bits(),
    {
        match &self.quantization {
            Some(q) => q.bits,
            None => 4,
        }
    }

    pub open spec fn spec_shared_count(&self) -> usize {
        match self.num_shared_experts {
            Some(n) => n,
            None => self.moe_num_shared_experts,
        }
    }

    /// The router activation that counts.
    pub open spec fn gate_act(&self) -> Seq<char> {
        match self.expert_selection_fn {
            Some(a) => a@,
            None => self.moe_gate_act@,
        }
    }

    /// Layer `i` uses sliding-window attention: never in the dense prefix, as the list says where
    /// there is one, else on all but the last layer of each group.
    pub open spec fn slides(&self, i: int) -> bool {
        if i < self.first_k_dense_replace {
            false
        } else {
            match self.layer_types {
                Some(types) => i < types@.len() && types@[i]@ == "sliding_attention"@,
                None => self.sliding_window_pattern == 0 || (i + 1) % self.sliding_window_pattern as int != 0,
            }
        }
    }

    /// Layer `i` rotates: it slides, or the dense prefix is told to rotate.
    pub open spec fn rotates(&self, i: int) -> bool {
        self.slides(i) || (i < self.first_k_dense_replace && self.prefix_dense_sliding_window_pattern == 1)
    }

    /// Number of always-on shared experts; none disables the shared block.
    pub fn shared_expert_count(&self) -> (r: usize)
        ensures r == self.spec_shared_count(),
    {
        match self.num_shared_experts {
            Some(n) => n,
            None => self.moe_num_shared_experts,
        }
    }

    /// Width of the dense prefix.
    pub fn prefix_dense_intermediate(&self) -> (r: usize)
        ensures
            r == match self.prefix_dense_intermediate_size {
                Some(n) => n,
                None => self.intermediate_size,
            },
    {
        match self.prefix_dense_intermediate_size {
            Some(n) => n,
            None => self.intermediate_size,
        }
    }

    /// Whether the router scores by a sigmoid: unless its activation is softmax, in any letter case.
    pub fn gate_is_sigmoid(&self) -> (r: bool)
        ensures r == (lower(self.gate_act()) != "softmax"@),
    {
        let act: &str = match &self.expert_selection_fn {
            Some(a) => a.as_str(),
            None => self.moe_gate_act.as_str(),
        };
        let l: String = ascii_lowercase(act);
        !same(l.as_str(), "softmax")
    }

    /// Whether routed and shared outputs are averaged: unless the strategy is a sum, in any letter
    /// case.
    pub fn shared_combine_average(&self) -> (r: bool)
        ensures r == (lower(self.shared_expert_combination_strategy@) != "sum"@),
    {
        let l: String = ascii_lowercase(self.shared_expert_combination_strategy.as_str());
        !same(l.as_str(), "sum")
    }

    /// Whether a layer belongs to the dense prefix.
    pub fn is_dense_layer(&self, layer_idx: usize) -> (r: bool)
        ensures r == (layer_idx < self.first_k_dense_replace),
    {
        layer_idx < self.first_k_dense_replace
    }

    /// Whether a layer uses sliding-window attention.
    pub fn is_sliding_window_layer(&self, layer_idx: usize) -> (r: bool)
        requires layer_idx < usize::MAX,
        ensures r == self.slides(layer_idx as int),
    {
        if layer_idx < self.first_k_dense_replace {
            return false;
        }
        match &self.layer_types {
            Some(types) => {
                if layer_idx < types.len() {
                    same(types[layer_idx].as_str(), "sliding_attention")
                } else {
                    false
                }
            },
            None => {
                if self.sliding_window_pattern == 0 {
                    true
                } else {
                    (layer_idx + 1) % self.sliding_window_pattern != 0
                }
            },
        }
    }

    /// Whether a layer rotates. A global layer past the prefix has no positional encoding.
    pub fn layer_uses_rope(&self, layer_idx: usize) -> (r: bool)
        requires layer_idx < usize::MAX,
        ensures r == self.rotates(layer_idx as int),
    {
        self.is_sliding_window_layer(layer_idx) || (layer_idx < self.first_k_dense_replace
            && self.prefix_dense_sliding_window_pattern == 1)
    }

    /// `r` is the first layer that slides, or that does not; zero where there is none.
    pub open spec fn first_of(&self, sliding: bool, r: usize) -> bool {
        if exists|j: int| 0 <= j < self.num_hidden_layers && self.slides(j) == sliding {
            r < self.num_hidden_layers && self.slides(r as int) == sliding && forall|j: int|
                0 <= j < r ==> self.slides(j) != sliding
        } else {
            r == 0
        }
    }

    /// The first layer that slides, or that does not; zero where there is none.
    pub fn first_layer(&self, sliding: bool) -> (r: usize)
        ensures self.first_of(sliding, r),
    {
        let mut i: usize = 0;
        while i < self.num_hidden_layers
            invariant
                i <= self.num_hidden_layers,
                forall|j: int| 0 <= j < i ==> self.slides(j) != sliding,
            decreases self.num_hidden_layers - i,
        {
            if self.is_sliding_window_layer(i) == sliding {
                return i;
            }
            i = i + 1;
        }
        0
    }
}

/// The dense prefix is global, and rotates only when told to; past it, a layer rotates exactly when
/// it slides.
pub proof fn rotation_follows_the_schedule(args: Cohere2MoeConfig, i: int)
    ensures
        i < args.first_k_dense_replace ==> !args.slides(i),
        i < args.first_k_dense_replace ==> (args.rotates(i) <==> args.prefix_dense_sliding_window_pattern == 1),
        i >= args.first_k_dense_replace ==> (args.rotates(i) <==> args.slides(i)),
{
}

/// The load steps of a norm: its weight, and for a LayerNorm its bias where one is stored.
pub open spec fn norm_steps(s: Seq<StepView>, prefix: Seq<char>, rms: bool) -> Seq<StepView> {
    let s = step(s, StepKind::Tensor, prefix + ".weight"@);
    if rms { s } else { step(s, StepKind::OptionalTensor, prefix + ".bias"@) }
}

/// The kind of every norm of a model, with the bits of its epsilon.
#[derive(Clone, Copy, Debug, PartialEq, Eq, Structural)]
pub enum Cohere2MoeNorm {
    Rms(u32),
    Layer(u32),
}

impl Cohere2MoeConfig {
    /// The norm of the model: by root mean square where the config gives an epsilon for that.
    pub open spec fn norm(&self) -> Cohere2MoeNorm {
        match self.rms_norm_eps {
            Some(eps) => Cohere2MoeNorm::Rms(eps.bits),
            None => Cohere2MoeNorm::Layer(self.layer_norm_eps.bits),
        }
    }
}

impl Cohere2MoeNorm {
    /// The norm that a config describes, with its load steps.
    pub fn from_weights(args: &Cohere2MoeConfig, prefix: &str, steps: &mut Steps) -> (r: Self)
        ensures
            r == args.norm(),
            final(steps)@ == norm_steps(old(steps)@, prefix@, args.rms_norm_eps is Some),
    {
        steps.push(StepKind::Tensor, text(prefix).lit(".weight").done());
        match &args.rms_norm_eps {
            Some(eps) => Cohere2MoeNorm::Rms(eps.bits),
            None => {
                steps.push(StepKind::OptionalTensor, text(prefix).lit(".bias").done());
                Cohere2MoeNorm::Layer(args.layer_norm_eps.bits)
            },
        }
    }
}

/// The load steps of a SwiGLU block.
pub open spec fn mlp_steps(s: Seq<StepView>, prefix: Seq<char>) -> Seq<StepView> {
    let s = step(s, StepKind::Linear, prefix + ".gate_proj"@);
    let s = step(s, StepKind::Linear, prefix + ".up_proj"@);
    step(s, StepKind::Linear, prefix + ".down_proj"@)
}

/// A SwiGLU block.
#[derive(Clone, Copy, Debug)]
pub struct Cohere2MoeMLP {}

impl Cohere2MoeMLP {
    /// The block with its load steps.
    pub fn from_weights(prefix: &str, steps: &mut Steps) -> (r: Self)
        ensures final(steps)@ == mlp_steps(old(steps)@, prefix@),
    {
        steps.push(StepKind::Linear, text(prefix).lit(".gate_proj").done());
        steps.push(StepKind::Linear, text(prefix).lit(".up_proj").done());
        steps.push(StepKind::Linear, text(prefix).lit(".down_proj").done());
        Cohere2MoeMLP {}
    }
}

/// One attention block over a fused projection.
#[derive(Debug)]
pub struct Cohere2MoeAttention {
    pub num_heads: i32,
    pub num_kv_heads: i32,
    pub head_dim: i32,
    pub rope_dims: i32,
    pub rope_base: Single,
    /// A sliding layer, or a layer of a rotating dense prefix.
    pub use_rope: bool,
    /// Sliding-window width; 0 for global layers.
    pub window_size: i32,
}

/// The load steps of an attention block.
pub open spec fn attention_steps(s: Seq<StepView>, prefix: Seq<char>) -> Seq<StepView> {
    step(step(s, StepKind::Linear, prefix + ".o_proj"@), StepKind::FusedQkv, prefix)
}

/// The shape of a mask, where there is one.
pub open spec fn mask_shape(mask: Option<&Vec<i32>>) -> Option<Seq<i32>> {
    match mask {
        Some(m) => Some(m@),
        None => None,
    }
}

/// The key axis of a mask: its last one, or all `k_len` keys where there is none.
pub open spec fn mask_keys(mask: Option<Seq<i32>>, k_len: i32) -> i32 {
    match mask {
        Some(s) => if s.len() > 0 { s.last() } else { k_len },
        None => k_len,
    }
}

impl Cohere2MoeAttention {
    /// The head split of an input `[batch, length, hidden]`, and its rotation from `offset` on where
    /// the layer rotates.
    pub fn forward(&self, x: &Vec<i32>, offset: i32) -> (r: HeadPlan)
        requires
            x@.len() >= 2,
            fits_mul(self.num_heads as int, self.head_dim as int),
        ensures
            r == (HeadPlan {
                batch: x@[0],
                length: x@[1],
                q_heads: self.num_heads,
                kv_heads: self.num_kv_heads,
                head_dim: self.head_dim,
                rope: if self.use_rope { Some(Rope { dims: self.rope_dims, traditional: true, offset }) } else { None },
                width: (self.num_heads * self.head_dim) as i32,
            }),
    {
        let rope: Option<Rope> = if self.use_rope { Some(Rope { dims: self.rope_dims, traditional: true, offset }) } else { None };
        HeadPlan {
            batch: x[0],
            length: x[1],
            q_heads: self.num_heads,
            kv_heads: self.num_kv_heads,
            head_dim: self.head_dim,
            rope,
            width: self.num_heads * self.head_dim,
        }
    }

    /// What attention reads of `k_len` cached keys. A prompt on a windowed layer reads as many of
    /// the newest as its mask has; a single token leaves that to the kernel.
    pub open spec fn attend_plan(&self, length: i32, k_len: i32, mask: Option<Seq<i32>>) -> AttendPlan {
        if length > 1 {
            let m = mask_keys(mask, k_len);
            AttendPlan {
                keys: if self.window_size > 0 && k_len > m { Some(((k_len - m) as i32, k_len)) } else { None },
                kernel: Kernel::Masked { window: self.window_size },
            }
        } else {
            AttendPlan { keys: None, kernel: Kernel::Causal { window: self.window_size } }
        }
    }

    /// What attention reads of `k_len` cached keys, and with which kernel, given the shape of the
    /// mask.
    pub fn attend(&self, length: i32, k_len: i32, mask: Option<&Vec<i32>>) -> (r: AttendPlan)
        requires
            k_len - mask_keys(mask_shape(mask), k_len) <= i32::MAX,
        ensures
            r == self.attend_plan(length, k_len, mask_shape(mask)),
    {
        if length > 1 {
            let m: i32 = match mask {
                Some(s) => if s.len() > 0 { s[s.len() - 1] } else { k_len },
                None => k_len,
            };
            let keys: Option<(i32, i32)> = if self.window_size > 0 && k_len > m {
                Some((k_len - m, k_len))
            } else {
                None
            };
            AttendPlan { keys, kernel: Kernel::Masked { window: self.window_size } }
        } else {
            AttendPlan { keys: None, kernel: Kernel::Causal { window: self.window_size } }
        }
    }

    /// The block that a config describes at layer `i`.
    pub open spec fn follows(&self, args: Cohere2MoeConfig, i: int) -> bool {
        &&& self.num_heads == args.num_attention_heads as i32
        &&& self.num_kv_heads == args.num_key_value_heads as i32
        &&& self.head_dim == args.head_dim as i32
        &&& self.rope_dims == args.head_dim as i32
        &&& self.rope_base.is_copy_of(args.rope_theta)
        &&& self.use_rope == args.rotates(i)
        &&& self.window_size == (if args.slides(i) { args.sliding_window as i32 } else { 0 })
    }

    /// The block that a config describes, with its load steps.
    pub fn from_weights(args: &Cohere2MoeConfig, layer_idx: usize, prefix: &str, steps: &mut Steps) -> (r: Self)
        requires layer_idx < usize::MAX,
        ensures
            r.follows(*args, layer_idx as int),
            final(steps)@ == attention_steps(old(steps)@, prefix@),
    {
        let use_sliding_window: bool = args.is_sliding_window_layer(layer_idx);
        let use_rope: bool = args.layer_uses_rope(layer_idx);
        steps.push(StepKind::Linear, text(prefix).lit(".o_proj").done());
        steps.push(StepKind::FusedQkv, prefix.to_owned());
        let head_dim: i32 = args.head_dim as i32;
        Cohere2MoeAttention {
            num_heads: args.num_attention_heads as i32,
            num_kv_heads: args.num_key_value_heads as i32,
            head_dim,
            rope_dims: head_dim,
            rope_base: args.rope_theta.copy(),
            use_rope,
            window_size: if use_sliding_window { args.sliding_window as i32 } else { 0 },
        }
    }
}

/// A prompt on a windowed layer reads exactly as many keys as its mask covers, the newest ones,
/// whenever the cache holds at least that many.
pub proof fn keys_match_the_mask(a: Cohere2MoeAttention, length: i32, k_len: i32, mask: Seq<i32>)
    requires
        length > 1,
        a.window_size > 0,
        mask.len() > 0,
        0 <= mask.last() <= k_len,
    ensures
        ({
            let (start, stop) = match a.attend_plan(length, k_len, Some(mask)).keys {
                Some(range) => range,
                None => (0i32, k_len),
            };
            stop == k_len && stop - start == mask.last()
        }),
{
}

/// A sparse block: a router over routed experts, with optional shared experts beside them.
#[derive(Debug)]
pub struct Cohere2MoeSparseBlock {
    pub shared_expert: Option<Cohere2MoeMLP>,
    pub num_experts_per_tok: usize,
    pub norm_topk_prob: bool,
    pub gate_is_sigmoid: bool,
    pub shared_combine_average: bool,
}

/// Bits of the single nearest to 1e-12, the least that selected weights are divided by.
pub const TINY_BITS: u32 = 0x2b8c_bccc;

pub open spec fn topk_route(n_experts: i32, k: i32, gate_is_sigmoid: bool, norm_topk_prob: bool) -> RoutePlan {
    RoutePlan {
        scoring: if gate_is_sigmoid { Scoring::Sigmoid } else { Scoring::PreciseSoftmax },
        selected_by: Basis::Logit,
        weighed_by: Basis::Score,
        groups: None,
        descending: false,
        kth: (n_experts - k) as i32,
        first: (n_experts - k) as i32,
        stop: n_experts,
        divisor: if norm_topk_prob { Some(Divisor::SumAtLeast(TINY_BITS)) } else { None },
        scale: None,
        weights_in: Precision::Single,
    }
}

/// How the experts of each token are picked from a row of `n_experts` logits: the last `k` positions
/// of a partition around `n_experts - k`.
pub fn router_topk_scores(n_experts: i32, k: i32, gate_is_sigmoid: bool, norm_topk_prob: bool) -> (r: RoutePlan)
    requires i32::MIN <= n_experts - k <= i32::MAX,
    ensures r == topk_route(n_experts, k, gate_is_sigmoid, norm_topk_prob),
{
    let kth: i32 = n_experts - k;
    RoutePlan {
        scoring: if gate_is_sigmoid { Scoring::Sigmoid } else { Scoring::PreciseSoftmax },
        selected_by: Basis::Logit,
        weighed_by: Basis::Score,
        groups: None,
        descending: false,
        kth,
        first: kth,
        stop: n_experts,
        divisor: if norm_topk_prob { Some(Divisor::SumAtLeast(TINY_BITS)) } else { None },
        scale: None,
        weights_in: Precision::Single,
    }
}

/// A row with at least one and at most `n_experts` experts to pick gives exactly `k` of them, those
/// with the largest logits.
pub proof fn route_picks_the_largest(n_experts: i32, k: i32, gate_is_sigmoid: bool, norm_topk_prob: bool)
    requires 1 <= k <= n_experts,
    ensures topk_route(n_experts, k, gate_is_sigmoid, norm_topk_prob).picks_largest(n_experts as int, k as int),
{
}

/// How the routed and the shared output are put together.
#[derive(Clone, Copy, Debug, PartialEq, Eq, Structural)]
pub enum Combination {
    Routed,
    Average,
    Sum,
}

/// The load steps of a sparse block.
pub open spec fn sparse_steps(s: Seq<StepView>, args: Cohere2MoeConfig, i: nat) -> Seq<StepView> {
    let p = layer_name(i) + ".mlp"@;
    let s = step(s, StepKind::Linear, p + ".gate"@);
    let s = step(s, StepKind::Experts, p + ".switch_mlp"@);
    if args.spec_shared_count() > 0 { mlp_steps(s, p + ".shared_experts"@) } else { s }
}

impl Cohere2MoeSparseBlock {
    /// How the block flattens its input.
    pub fn forward(&self, x: &Vec<i32>) -> (r: FlatPlan)
        requires
            x@.len() >= 2,
            countable(x@.drop_last()),
        ensures
            r == flat_plan(x@),
    {
        flatten(x)
    }

    /// How the experts of each token are picked from a row of `n_experts` logits.
    pub fn route(&self, n_experts: i32) -> (r: RoutePlan)
        requires
            n_experts >= 0,
            self.num_experts_per_tok <= i32::MAX,
        ensures
            r == topk_route(n_experts, self.num_experts_per_tok as i32, self.gate_is_sigmoid, self.norm_topk_prob),
    {
        router_topk_scores(n_experts, self.num_experts_per_tok as i32, self.gate_is_sigmoid, self.norm_topk_prob)
    }

    /// How the routed and the shared output are put together.
    pub fn combine_shared_expert(&self) -> (r: Combination)
        ensures
            r == (if self.shared_expert is None {
                Combination::Routed
            } else if self.shared_combine_average {
                Combination::Average
            } else {
                Combination::Sum
            }),
    {
        if self.shared_expert.is_none() {
            Combination::Routed
        } else if self.shared_combine_average {
            Combination::Average
        } else {
            Combination::Sum
        }
    }

    /// The block that a config describes.
    pub open spec fn follows(&self, args: Cohere2MoeConfig) -> bool {
        &&& self.shared_expert is Some <==> args.spec_shared_count() > 0
        &&& self.num_experts_per_tok == args.num_experts_per_tok
        &&& self.norm_topk_prob == args.norm_topk_prob
        &&& self.gate_is_sigmoid == (lower(args.gate_act()) != "softmax"@)
        &&& self.shared_combine_average == (lower(args.shared_expert_combination_strategy@) != "sum"@)
    }

    /// The block that a config describes, with its load steps.
    pub fn from_weights(args: &Cohere2MoeConfig, layer_idx: usize, steps: &mut Steps) -> (r: Self)
        ensures
            r.follows(*args),
            final(steps)@ == sparse_steps(old(steps)@, *args, layer_idx as nat),
    {
        let layer: String = layer_prefix(layer_idx);
        let prefix: String = text(layer.as_str()).lit(".mlp").done();
        steps.push(StepKind::Linear, text(prefix.as_str()).lit(".gate").done());
        steps.push(StepKind::Experts, text(prefix.as_str()).lit(".switch_mlp").done());
        let shared_expert: Option<Cohere2MoeMLP> = if args.shared_expert_count() > 0 {
            let key: String = text(prefix.as_str()).lit(".shared_experts").done();
            Some(Cohere2MoeMLP::from_weights(key.as_str(), steps))
        } else {
            None
        };
        Cohere2MoeSparseBlock {
            shared_expert,
            num_experts_per_tok: args.num_experts_per_tok,
            norm_topk_prob: args.norm_topk_prob,
            gate_is_sigmoid: args.gate_is_sigmoid(),
            shared_combine_average: args.shared_combine_average(),
        }
    }
}

/// Either the dense prefix block or the sparse block, per layer.
#[derive(Debug)]
pub enum Cohere2MoeFFN {
    Dense(Cohere2MoeMLP),
    Sparse(Cohere2MoeSparseBlock),
}

/// One parallel block.
#[derive(Debug)]
pub struct Cohere2MoeDecoderLayer {
    pub self_attn: Cohere2MoeAttention,
    pub ffn: Cohere2MoeFFN,
    pub input_layernorm: Cohere2MoeNorm,
    pub uses_sliding: bool,
}

/// The load steps of layer `i`.
pub open spec fn layer_steps(s: Seq<StepView>, args: Cohere2MoeConfig, i: nat) -> Seq<StepView> {
    let p = layer_name(i);
    let s = attention_steps(s, p + ".self_attn"@);
    let s = if i < args.first_k_dense_replace { mlp_steps(s, p + ".mlp"@) } else { sparse_steps(s, args, i) };
    norm_steps(s, p + ".input_layernorm"@, args.rms_norm_eps is Some)
}

impl Cohere2MoeDecoderLayer {
    /// Layer `i` as the config describes it.
    pub open spec fn describes(&self, args: Cohere2MoeConfig, i: int) -> bool {
        &&& self.self_attn.follows(args, i)
        &&& self.uses_sliding == args.slides(i)
        &&& self.ffn is Dense <==> i < args.first_k_dense_replace
        &&& self.ffn matches Cohere2MoeFFN::Sparse(b) ==> b.follows(args)
        &&& self.input_layernorm == args.norm()
    }

    /// The block that a config describes, with its load steps.
    pub fn from_weights(args: &Cohere2MoeConfig, layer_idx: usize, steps: &mut Steps) -> (r: Self)
        requires layer_idx < usize::MAX,
        ensures
            r.describes(*args, layer_idx as int),
            final(steps)@ == layer_steps(old(steps)@, *args, layer_idx as nat),
    {
        let prefix: String = layer_prefix(layer_idx);
        let attn: String = text(prefix.as_str()).lit(".self_attn").done();
        let mlp_key: String = text(prefix.as_str()).lit(".mlp").done();
        let norm: String = text(prefix.as_str()).lit(".input_layernorm").done();
        let self_attn: Cohere2MoeAttention = Cohere2MoeAttention::from_weights(args, layer_idx, attn.as_str(), steps);
        let ffn: Cohere2MoeFFN = if args.is_dense_layer(layer_idx) {
            Cohere2MoeFFN::Dense(Cohere2MoeMLP::from_weights(mlp_key.as_str(), steps))
        } else {
            Cohere2MoeFFN::Sparse(Cohere2MoeSparseBlock::from_weights(args, layer_idx, steps))
        };
        let input_layernorm: Cohere2MoeNorm = Cohere2MoeNorm::from_weights(args, norm.as_str(), steps);
        Cohere2MoeDecoderLayer { self_attn, ffn, input_layernorm, uses_sliding: args.is_sliding_window_layer(layer_idx) }
    }
}

/// The load steps of the first `n` layers, behind the embedding table.
pub open spec fn stack_steps(args: Cohere2MoeConfig, n: nat) -> Seq<StepView>
    decreases n,
{
    if n == 0 {
        step(Seq::empty(), StepKind::Embedding, "model.embed_tokens"@)
    } else {
        layer_steps(stack_steps(args, (n - 1) as nat), args, (n - 1) as nat)
    }
}

/// The output projection: the embedding table unless the checkpoint ships a head of its own.
pub open spec fn head_key(weights: Map<Seq<char>, Seq<i32>>) -> Seq<char> {
    if weights.contains_key("lm_head.weight"@) { "lm_head"@ } else { "model.embed_tokens"@ }
}

/// The load steps of a whole model.
pub open spec fn model_steps(weights: Map<Seq<char>, Seq<i32>>, args: Cohere2MoeConfig) -> Seq<StepView> {
    let s = norm_steps(stack_steps(args, args.num_hidden_layers as nat), "model.norm"@, args.rms_norm_eps is Some);
    step(s, StepKind::Linear, head_key(weights))
}

/// The prefill masks of one forward pass.
#[derive(Clone, Copy, Debug)]
pub struct MaskPlan {
    /// Keys live before the prompt under the causal mask.
    pub full: i32,
    /// Keys live before the prompt under the windowed mask, and the window.
    pub sliding: (i32, i32),
}

/// Cohere2 MoE.
#[derive(Debug)]
pub struct Cohere2MoeModel {
    pub layers: Vec<Cohere2MoeDecoderLayer>,
    pub norm: Cohere2MoeNorm,
    /// Where the output projection is read from.
    pub head: String,
    pub sliding_window: i32,
    pub swa_idx: usize,
    pub ga_idx: usize,
    pub eos_token_ids: Vec<i32>,
}

impl Cohere2MoeModel {
    /// The prefill masks, sized from the live length of each layer's cache: none for a single
    /// token.
    pub fn run_layers(&self, seq_len: usize, live: &Vec<i32>) -> (r: Option<MaskPlan>)
        requires
            seq_len > 1 ==> self.ga_idx < live@.len() && self.swa_idx < live@.len(),
        ensures
            r is Some <==> seq_len > 1,
            r matches Some(m) ==> {
                &&& m.full == live@[self.ga_idx as int]
                &&& m.sliding == (live@[self.swa_idx as int], self.sliding_window)
            },
    {
        if seq_len > 1 {
            Some(MaskPlan { full: live[self.ga_idx], sliding: (live[self.swa_idx], self.sliding_window) })
        } else {
            None
        }
    }

    /// Whether a layer takes the windowed mask.
    pub fn takes_sliding_mask(&self, layer: usize) -> (r: bool)
        requires layer < self.layers@.len(),
        ensures r == self.layers@[layer as int].uses_sliding,
    {
        self.layers[layer].uses_sliding
    }

    /// The number of layers, each with a cache of its own.
    pub fn num_layers(&self) -> (r: usize)
        ensures r == self.layers@.len(),
    {
        self.layers.len()
    }

    /// The model that a config describes, with its load steps. A mask index falls back to the first
    /// layer, where no layer consumes that mask.
    pub fn from_weights(weights: &WeightMap, args: &Cohere2MoeConfig) -> (r: (Self, Steps))
        ensures
            r.0.layers@.len() == args.num_hidden_layers,
            forall|i: int| 0 <= i < r.0.layers@.len() ==> (#[trigger] r.0.layers@[i]).describes(*args, i),
            r.0.sliding_window == args.sliding_window as i32,
            args.first_of(true, r.0.swa_idx),
            args.first_of(false, r.0.ga_idx),
            r.0.norm == args.norm(),
            r.0.head@ == head_key(weights@),
            r.0.eos_token_ids@ == eos_ids(args.eos_token_id),
            r.1@ == model_steps(weights@, *args),
    {
        let mut steps: Steps = Steps::new();
        steps.push(StepKind::Embedding, "model.embed_tokens".to_owned());
        assert(steps@ =~= stack_steps(*args, 0));
        let mut layers: Vec<Cohere2MoeDecoderLayer> = Vec::new();
        let mut i: usize = 0;
        while i < args.num_hidden_layers
            invariant
                i <= args.num_hidden_layers,
                layers@.len() == i,
                steps@ == stack_steps(*args, i as nat),
                forall|j: int| 0 <= j < i ==> (#[trigger] layers@[j]).describes(*args, j),
            decreases args.num_hidden_layers - i,
        {
            let layer: Cohere2MoeDecoderLayer = Cohere2MoeDecoderLayer::from_weights(args, i, &mut steps);
            layers.push(layer);
            i = i + 1;
        }
        let norm: Cohere2MoeNorm = Cohere2MoeNorm::from_weights(args, "model.norm", &mut steps);
        let head: &str = if weights.contains_key("lm_head.weight") { "lm_head" } else { "model.embed_tokens" };
        steps.push(StepKind::Linear, head.to_owned());
        let model: Cohere2MoeModel = Cohere2MoeModel {
            layers,
            norm,
            head: head.to_owned(),
            sliding_window: args.sliding_window as i32,
            swa_idx: args.first_layer(true),
            ga_idx: args.first_layer(false),
            eos_token_ids: eos_token_ids(&args.eos_token_id),
        };
        (model, steps)
    }
}

} // verus!
