//! Arcee AFMoE (`afmoe`): a hybrid of sliding and full attention layers over a dense prefix and a
//! mixture of experts.
//!
//! The attention schedule comes from the `layer_types` list. Full-attention layers apply no
//! positional encoding, and the attention output is gated before its output projection.
use vstd::prelude::*;
use vstd::string::*;
use crate::json::ScalingBlock;
use crate::limits::{
    check_dense_prefix, check_kv_heads, check_norm_eps, check_quantization_params, check_range,
    check_rope_scaling, check_rope_theta, check_shared_width, dense_prefix, in_range, kv_heads, next,
    norm_eps, quantization_params, rope_scaling, rope_theta, shared_width, told, Finding, Routing, RoutingView,
    MAX_HEAD_DIM, MAX_HIDDEN_SIZE, MAX_INTERMEDIATE_SIZE, MAX_MAX_POSITION_EMBEDDINGS,
    MAX_NUM_ATTENTION_HEADS, MAX_NUM_HIDDEN_LAYERS, MAX_NUM_SHARED_EXPERTS, MAX_VOCAB_SIZE,
};
use crate::plan::{
    attend_causal, causal_unless_masked, countable, fits_mul, flat_plan, flatten, AttendPlan, FlatPlan, HeadPlan,
    Basis, Divisor, Kernel, Precision, Rope, RoutePlan, Scoring,
};
use crate::single::{finite, positive, Single};
use crate::steps::{all_served, step, Build, StepKind, StepView, Steps};
use crate::text::{debug_string, debug_text, dec, occurs, same, starts_at, text};
use crate::weights::{
    after, asks_soundly, layer_name, layer_prefix, lemma_mlp_asks, lemma_mlp_without, lemma_norm_without,
    lemma_packing_without, lemma_projection_asks, lemma_projection_without, lemma_stacked_asks,
    lemma_stacked_without, misses_only, missing_text, weight_like, without, Checkpoint, CheckpointView, Outcome,
    PackingAnswers, ProjectionStyle, Verdict, WeightMap,
};

verus! {

/// AFMoE `config.json`.
#[derive(Clone, Debug)]
pub struct ModelArgs {
    pub model_type: String,
    /// Per-layer attention kind, `"sliding_attention"` or `"full_attention"`.
    pub layer_types: Vec<String>,
    pub vocab_size: usize,
    pub hidden_size: usize,
    pub intermediate_size: usize,
    pub moe_intermediate_size: usize,
    pub num_hidden_layers: usize,
    pub num_attention_heads: usize,
    pub num_key_value_heads: usize,
    /// Explicit head width, independent of `hidden_size / num_attention_heads`.
    pub head_dim: usize,
    pub max_position_embeddings: usize,
    pub rms_norm_eps: Single,
    pub rope_theta: Single,
    pub rope_scaling: Option<ScalingBlock>,
    pub tie_word_embeddings: bool,
    pub num_experts: usize,
    pub num_experts_per_tok: usize,
    pub num_shared_experts: usize,
    /// Layers below this index use a plain SwiGLU MLP.
    pub num_dense_layers: usize,
    pub route_norm: bool,
    pub route_scale: Single,
    pub score_func: String,
    pub n_group: usize,
    pub topk_group: usize,
    pub sliding_window: usize,
    /// When true the embedding output is multiplied by `sqrt(hidden_size)`.
    pub mup_enabled: bool,
    pub eos_token_id: Option<TokenIdField>,
    pub quantization: Option<Quantization>,
}

/// A `config.json` token-id field, which may be a single int or a list of ints.
#[derive(Clone, Debug)]
pub enum TokenIdField {
    Single(i32),
    Multiple(Vec<i32>),
}

impl TokenIdField {
    /// The ids that the field lists.
    pub open spec fn spec_ids(&self) -> Seq<i32> {
        match self {
            TokenIdField::Single(id) => seq![*id],
            TokenIdField::Multiple(ids) => ids@,
        }
    }

    /// The ids that the field lists.
    pub fn ids(&self) -> (r: Vec<i32>)
        ensures r@ == self.spec_ids(),
    {
        match self {
            TokenIdField::Single(id) => {
                let r: Vec<i32> = vec![*id];
                assert(r@ =~= seq![*id]);
                r
            },
            TokenIdField::Multiple(ids) => crate::weights::copy_shape(ids),
        }
    }
}

/// The top-level `quantization` block.
#[derive(Clone, Copy, Debug)]
pub struct Quantization {
    pub group_size: i32,
    pub bits: i32,
}

pub fn default_model_type() -> (r: String)
    ensures r@ == "afmoe"@,
{
    "afmoe".to_owned()
}

pub fn default_vocab_size() -> (r: usize)
    ensures r == 200_192,
{
    200_192
}

pub fn default_hidden_size() -> (r: usize)
    ensures r == 2048,
{
    2048
}

pub fn default_intermediate_size() -> (r: usize)
    ensures r == 6144,
{
    6144
}

pub fn default_moe_intermediate_size() -> (r: usize)
    ensures r == 1024,
{
    1024
}

pub fn default_num_hidden_layers() -> (r: usize)
    ensures r == 32,
{
    32
}

pub fn default_num_attention_heads() -> (r: usize)
    ensures r == 32,
{
    32
}

pub fn default_num_key_value_heads() -> (r: usize)
    ensures r == 4,
{
    4
}

pub fn default_head_dim() -> (r: usize)
    ensures r == 64,
{
    64
}

pub fn default_max_position_embeddings() -> (r: usize)
    ensures r == 131_072,
{
    131_072
}

pub fn default_rms_norm_eps() -> (r: Single)
    ensures r.bits == 0x3727_c5ac, r.text@ == "0.00001"@,
{
    Single { bits: 0x3727_c5ac, text: "0.00001".to_owned() }
}

pub fn default_rope_theta() -> (r: Single)
    ensures r.bits == 0x461c_4000, r.text@ == "10000"@,
{
    Single { bits: 0x461c_4000, text: "10000".to_owned() }
}

pub fn default_route_scale() -> (r: Single)
    ensures r.bits == 0x4034_dd2f, r.text@ == "2.826"@,
{
    Single { bits: 0x4034_dd2f, text: "2.826".to_owned() }
}

pub fn default_num_experts() -> (r: usize)
    ensures r == 128,
{
    128
}

pub fn default_num_experts_per_tok() -> (r: usize)
    ensures r == 8,
{
    8
}

pub fn default_num_shared_experts() -> (r: usize)
    ensures r == 1,
{
    1
}

pub fn default_num_dense_layers() -> (r: usize)
    ensures r == 2,
{
    2
}

pub fn default_true() -> (r: bool)
    ensures r,
{
    true
}

pub fn default_score_func() -> (r: String)
    ensures r@ == "sigmoid"@,
{
    "sigmoid".to_owned()
}

pub fn default_n_group() -> (r: usize)
    ensures r == 1,
{
    1
}

pub fn default_topk_group() -> (r: usize)
    ensures r == 1,
{
    1
}

pub fn default_sliding_window() -> (r: usize)
    ensures r == 2048,
{
    2048
}

/// Which non-linearity turns router logits into routing probabilities.
#[derive(Clone, Copy, Debug, PartialEq, Eq, Structural)]
pub enum ScoreFunc {
    Sigmoid,
    Softmax,
}

/// A defined attention kind.
pub open spec fn is_layer_kind(kind: Seq<char>) -> bool {
    kind == "sliding_attention"@ || kind == "full_attention"@
}

/// Every attention kind from entry `i` on is defined.
pub open spec fn kinds_from(types: Seq<String>, i: int) -> Finding
    decreases types.len() - i,
{
    if i < 0 || i >= types.len() {
        Ok(())
    } else if !is_layer_kind(types[i]@) {
        Err(
            "AFMoE layer_types["@ + dec(i as nat) + "] is "@ + debug_text(types[i]@)
                + "; only \"sliding_attention\" and \"full_attention\" are defined, and an unrecognized value would fall back to full attention while the checkpoint expects a window"@,
        )
    } else {
        kinds_from(types, i + 1)
    }
}

impl ModelArgs {
    /// Layer `i` uses sliding-window attention.
    pub open spec fn slides(&self, i: int) -> bool {
        0 <= i < self.layer_types@.len() && self.layer_types@[i]@ == "sliding_attention"@
    }

    /// Some layer of the stack slides.
    pub open spec fn some_layer_slides(&self) -> bool {
        exists|i: int| 0 <= i < self.num_hidden_layers && self.slides(i)
    }

    pub open spec fn spec_shared_width(&self) -> nat {
        let w = self.moe_intermediate_size * self.num_shared_experts;
        if w > usize::MAX { usize::MAX as nat } else { w as nat }
    }

    pub open spec fn spec_group_size(&self) -> i32 {
        match self.quantization {
            Some(q) => q.group_size,
            None => 64,
        }
    }

    pub open spec fn spec_bits(&self) -> i32 {
        match self.quantization {
            Some(q) => q.bits,
            None => 4,
        }
    }

    /// Whether layer `layer_idx` uses sliding-window attention. A layer past the end of the list
    /// falls back to full attention.
    pub fn is_sliding_layer(&self, layer_idx: usize) -> (r: bool)
        ensures r == self.slides(layer_idx as int),
    {
        if layer_idx < self.layer_types.len() {
            same(self.layer_types[layer_idx].as_str(), "sliding_attention")
        } else {
            false
        }
    }

    /// Index of the first full-attention layer, whose cache sizes the global prefill mask.
    pub fn full_attention_index(&self) -> (r: Option<usize>)
        ensures
            match r {
                Some(i) => i < self.num_hidden_layers && !self.slides(i as int)
                    && forall|j: int| 0 <= j < i ==> self.slides(j),
                None => forall|j: int| 0 <= j < self.num_hidden_layers ==> self.slides(j),
            },
    {
        let mut i: usize = 0;
        while i < self.num_hidden_layers
            invariant
                i <= self.num_hidden_layers,
                forall|j: int| 0 <= j < i ==> self.slides(j),
            decreases self.num_hidden_layers - i,
        {
            if !self.is_sliding_layer(i) {
                return Some(i);
            }
            i = i + 1;
        }
        None
    }

    /// Index of the first sliding layer, whose cache sizes the windowed prefill mask.
    pub fn sliding_index(&self) -> (r: Option<usize>)
        ensures
            match r {
                Some(i) => i < self.num_hidden_layers && self.slides(i as int)
                    && forall|j: int| 0 <= j < i ==> !self.slides(j),
                None => forall|j: int| 0 <= j < self.num_hidden_layers ==> !self.slides(j),
            },
    {
        let mut i: usize = 0;
        while i < self.num_hidden_layers
            invariant
                i <= self.num_hidden_layers,
                forall|j: int| 0 <= j < i ==> !self.slides(j),
            decreases self.num_hidden_layers - i,
        {
            if self.is_sliding_layer(i) {
                return Some(i);
            }
            i = i + 1;
        }
        None
    }

    /// Whether layer `layer_idx` is sparse.
    pub fn is_moe_layer(&self, layer_idx: usize) -> (r: bool)
        ensures r == (layer_idx >= self.num_dense_layers),
    {
        layer_idx >= self.num_dense_layers
    }

    /// Width of the always-on shared MLP, stopping at the largest `usize`.
    pub fn shared_expert_intermediate_size(&self) -> (r: usize)
        ensures r == self.spec_shared_width(),
    {
        match self.moe_intermediate_size.checked_mul(self.num_shared_experts) {
            Some(w) => w,
            None => usize::MAX,
        }
    }

    pub fn has_shared_expert(&self) -> (r: bool)
        ensures r == (self.num_shared_experts > 0),
    {
        self.num_shared_experts > 0
    }

    pub fn score_func(&self) -> (r: ScoreFunc)
        ensures r == (if self.score_func@ == "softmax"@ { ScoreFunc::Softmax } else { ScoreFunc::Sigmoid }),
    {
        if same(self.score_func.as_str(), "softmax") { ScoreFunc::Softmax } else { ScoreFunc::Sigmoid }
    }

    pub fn group_size(&self) -> (r: i32)
        ensures r == self.spec_group_size(),
    {
        match &self.quantization {
            Some(q) => q.group_size,
            None => 64,
        }
    }

    pub fn bits(&self) -> (r: i32)
        ensures r == self.spec_bits(),
    {
        match &self.quantization {
            Some(q) => q.bits,
            None => 4,
        }
    }

    pub fn eos_token_ids(&self) -> (r: Vec<i32>)
        ensures
            r@ == match self.eos_token_id {
                Some(field) => field.spec_ids(),
                None => Seq::<i32>::empty(),
            },
    {
        match &self.eos_token_id {
            Some(field) => field.ids(),
            None => Vec::new(),
        }
    }

    /// The `layer_types` list covers the stack, holds defined kinds only, and a sliding layer has a
    /// window that a cache can count.
    pub open spec fn schedule_finding(&self) -> Finding {
        let n = self.layer_types@.len();
        if n != 0 && n < self.num_hidden_layers {
            Err(
                "AFMoE layer_types has "@ + dec(n) + " entries for "@ + dec(self.num_hidden_layers as nat)
                    + " layers; it is the per-layer sliding/full attention schedule, and a short list would silently make every uncovered layer global"@,
            )
        } else {
            next(
                kinds_from(self.layer_types@, 0),
                if self.some_layer_slides() && self.sliding_window == 0 {
                    Err(
                        "AFMoE sliding_window must be at least 1 when layer_types declares a sliding_attention layer; a zero window would keep no keys at all"@,
                    )
                } else if self.some_layer_slides() && self.sliding_window > i32::MAX {
                    Err(
                        "AFMoE sliding_window ("@ + dec(self.sliding_window as nat)
                            + ") must not exceed 2147483647 when layer_types declares a sliding_attention layer; a cache counts its window in 32 bits"@,
                    )
                } else {
                    Ok(())
                },
            )
        }
    }

    fn validate_schedule(&self) -> (r: Result<(), String>)
        ensures told(r) == self.schedule_finding(),
    {
        let n: usize = self.layer_types.len();
        if n != 0 && n < self.num_hidden_layers {
            return Err(
                text("AFMoE layer_types has ").num(n).lit(" entries for ").num(self.num_hidden_layers).lit(
                    " layers; it is the per-layer sliding/full attention schedule, and a short list would silently make every uncovered layer global",
                ).done(),
            );
        }
        let mut i: usize = 0;
        while i < n
            invariant
                n == self.layer_types@.len(),
                i <= n,
                kinds_from(self.layer_types@, 0) == kinds_from(self.layer_types@, i as int),
                !(n != 0 && n < self.num_hidden_layers),
            decreases n - i,
        {
            let kind: &str = self.layer_types[i].as_str();
            if !same(kind, "sliding_attention") && !same(kind, "full_attention") {
                let quoted: String = debug_string(kind);
                return Err(
                    text("AFMoE layer_types[").num(i).lit("] is ").lit(quoted.as_str()).lit(
                        "; only \"sliding_attention\" and \"full_attention\" are defined, and an unrecognized value would fall back to full attention while the checkpoint expects a window",
                    ).done(),
                );
            }
            i = i + 1;
        }
        let first: Option<usize> = self.sliding_index();
        if first.is_some() && self.sliding_window == 0 {
            assert(self.slides(first.unwrap() as int));
            return Err(
                "AFMoE sliding_window must be at least 1 when layer_types declares a sliding_attention layer; a zero window would keep no keys at all".to_owned(),
            );
        }
        if first.is_some() && self.sliding_window > i32::MAX as usize {
            assert(self.slides(first.unwrap() as int));
            return Err(
                text("AFMoE sliding_window (").num(self.sliding_window).lit(
                    ") must not exceed 2147483647 when layer_types declares a sliding_attention layer; a cache counts its window in 32 bits",
                ).done(),
            );
        }
        Ok(())
    }

    /// What the router is configured with.
    pub open spec fn routing(&self) -> RoutingView {
        RoutingView {
            family: "AFMoE"@,
            score_field: "score_func"@,
            score_choices: "\"sigmoid\" (the AFMoE default) or \"softmax\""@,
            scale_field: "route_scale"@,
            num_experts: self.num_experts as nat,
            num_experts_per_tok: self.num_experts_per_tok as nat,
            score: self.score_func@,
            n_group: self.n_group as nat,
            topk_group: self.topk_group as nat,
            scale: self.route_scale,
        }
    }

    /// The router parameters, where some layer has a router.
    pub open spec fn routing_finding(&self) -> Finding {
        if self.num_dense_layers >= self.num_hidden_layers { Ok(()) } else { self.routing().finding() }
    }

    fn validate_routing(&self) -> (r: Result<(), String>)
        ensures told(r) == self.routing_finding(),
    {
        if self.num_dense_layers >= self.num_hidden_layers {
            return Ok(());
        }
        let routing: Routing<'_> = Routing {
            family: "AFMoE",
            score_field: "score_func",
            score_choices: "\"sigmoid\" (the AFMoE default) or \"softmax\"",
            scale_field: "route_scale",
            num_experts: self.num_experts,
            num_experts_per_tok: self.num_experts_per_tok,
            score: self.score_func.as_str(),
            n_group: self.n_group,
            topk_group: self.topk_group,
            scale: &self.route_scale,
        };
        routing.check()
    }

    fn validate_shared_expert(&self) -> (r: Result<(), String>)
        ensures
            told(r) == shared_width(
                "AFMoE"@,
                "moe_intermediate_size"@,
                false,
                self.num_shared_experts > 0,
                self.moe_intermediate_size as nat,
                self.num_shared_experts as nat,
            ),
    {
        check_shared_width(
            "AFMoE",
            "moe_intermediate_size",
            false,
            self.has_shared_expert(),
            self.moe_intermediate_size,
            self.num_shared_experts,
        )
    }

    /// The sliding layers rotate the full head width, so it has to be even.
    pub open spec fn rope_finding(&self) -> Finding {
        next(
            rope_theta("AFMoE"@, self.rope_theta),
            if self.head_dim % 2 != 0 {
                Err(
                    "AFMoE head_dim ("@ + dec(self.head_dim as nat)
                        + ") must be even; the sliding layers rotate the full head width and RoPE rotates channel pairs, so MLX throws on an odd `dims`"@,
                )
            } else {
                Ok(())
            },
        )
    }

    fn validate_rope(&self) -> (r: Result<(), String>)
        ensures told(r) == self.rope_finding(),
    {
        let r: Result<(), String> = check_rope_theta("AFMoE", &self.rope_theta);
        if r.is_err() {
            return r;
        }
        if self.head_dim % 2 != 0 {
            return Err(
                text("AFMoE head_dim (").num(self.head_dim).lit(
                    ") must be even; the sliding layers rotate the full head width and RoPE rotates channel pairs, so MLX throws on an odd `dims`",
                ).done(),
            );
        }
        Ok(())
    }

    /// What is wrong with a config, if anything: the first check that does not hold, in order.
    /// `refusal` is the engine's error on the quantization parameters.
    pub open spec fn finding(&self, refusal: Option<&str>) -> Finding {
        let f = "AFMoE"@;
        next(in_range(f, "num_attention_heads"@, self.num_attention_heads as nat, MAX_NUM_ATTENTION_HEADS as nat),
        next(in_range(f, "hidden_size"@, self.hidden_size as nat, MAX_HIDDEN_SIZE as nat),
        next(in_range(f, "head_dim"@, self.head_dim as nat, MAX_HEAD_DIM as nat),
        next(kv_heads(f, self.num_key_value_heads as nat, self.num_attention_heads as nat),
        next(in_range(f, "num_hidden_layers"@, self.num_hidden_layers as nat, MAX_NUM_HIDDEN_LAYERS as nat),
        next(self.schedule_finding(),
        next(in_range(f, "intermediate_size"@, self.intermediate_size as nat, MAX_INTERMEDIATE_SIZE as nat),
        next(in_range(f, "moe_intermediate_size"@, self.moe_intermediate_size as nat, MAX_INTERMEDIATE_SIZE as nat),
        next(in_range(f, "vocab_size"@, self.vocab_size as nat, MAX_VOCAB_SIZE as nat),
        next(in_range(f, "max_position_embeddings"@, self.max_position_embeddings as nat, MAX_MAX_POSITION_EMBEDDINGS as nat),
        next(dense_prefix(f, "num_dense_layers"@, self.num_dense_layers as nat, self.num_hidden_layers as nat),
        next(self.routing_finding(),
        next(shared_width(f, "moe_intermediate_size"@, false, self.num_shared_experts > 0, self.moe_intermediate_size as nat, self.num_shared_experts as nat),
        next(self.rope_finding(),
        next(rope_scaling(f, self.rope_scaling),
        next(norm_eps(f, self.rms_norm_eps),
            quantization_params(f, self.quantization is Some, refusal)))))))))))))))))
    }

    /// Rejects a config that cannot describe a real AFMoE, before any of its fields sizes an
    /// allocation, divides, or reaches a kernel.
    pub fn validate(&self, refusal: Option<&str>) -> (r: Result<(), String>)
        ensures told(r) == self.finding(refusal),
    {
        let f: &str = "AFMoE";
        let r: Result<(), String> = check_range(f, "num_attention_heads", self.num_attention_heads, MAX_NUM_ATTENTION_HEADS);
        if r.is_err() { return r; }
        let r: Result<(), String> = check_range(f, "hidden_size", self.hidden_size, MAX_HIDDEN_SIZE);
        if r.is_err() { return r; }
        let r: Result<(), String> = check_range(f, "head_dim", self.head_dim, MAX_HEAD_DIM);
        if r.is_err() { return r; }
        let r: Result<(), String> = check_kv_heads(f, self.num_key_value_heads, self.num_attention_heads);
        if r.is_err() { return r; }
        let r: Result<(), String> = check_range(f, "num_hidden_layers", self.num_hidden_layers, MAX_NUM_HIDDEN_LAYERS);
        if r.is_err() { return r; }
        let r: Result<(), String> = self.validate_schedule();
        if r.is_err() { return r; }
        let r: Result<(), String> = check_range(f, "intermediate_size", self.intermediate_size, MAX_INTERMEDIATE_SIZE);
        if r.is_err() { return r; }
        let r: Result<(), String> = check_range(f, "moe_intermediate_size", self.moe_intermediate_size, MAX_INTERMEDIATE_SIZE);
        if r.is_err() { return r; }
        let r: Result<(), String> = check_range(f, "vocab_size", self.vocab_size, MAX_VOCAB_SIZE);
        if r.is_err() { return r; }
        let r: Result<(), String> = check_range(f, "max_position_embeddings", self.max_position_embeddings, MAX_MAX_POSITION_EMBEDDINGS);
        if r.is_err() { return r; }
        let r: Result<(), String> = check_dense_prefix(f, "num_dense_layers", self.num_dense_layers, self.num_hidden_layers);
        if r.is_err() { return r; }
        let r: Result<(), String> = self.validate_routing();
        if r.is_err() { return r; }
        let r: Result<(), String> = self.validate_shared_expert();
        if r.is_err() { return r; }
        let r: Result<(), String> = self.validate_rope();
        if r.is_err() { return r; }
        let r: Result<(), String> = check_rope_scaling(f, &self.rope_scaling);
        if r.is_err() { return r; }
        let r: Result<(), String> = check_norm_eps(f, &self.rms_norm_eps);
        if r.is_err() { return r; }
        check_quantization_params(f, self.quantization.is_some(), refusal)
    }

    /// The scalars of a config that a model can be built from.
    pub open spec fn usable(&self) -> bool {
        &&& 1 <= self.num_attention_heads <= MAX_NUM_ATTENTION_HEADS
        &&& 1 <= self.hidden_size <= MAX_HIDDEN_SIZE
        &&& 1 <= self.head_dim <= MAX_HEAD_DIM
        &&& self.head_dim % 2 == 0
        &&& 1 <= self.num_key_value_heads <= self.num_attention_heads
        &&& self.num_attention_heads % self.num_key_value_heads == 0
        &&& 1 <= self.num_hidden_layers <= MAX_NUM_HIDDEN_LAYERS
        &&& self.layer_types@.len() == 0 || self.layer_types@.len() >= self.num_hidden_layers
        &&& forall|i: int| 0 <= i < self.layer_types@.len() ==> is_layer_kind(#[trigger] self.layer_types@[i]@)
        &&& self.some_layer_slides() ==> 1 <= self.sliding_window <= i32::MAX
        &&& 1 <= self.intermediate_size <= MAX_INTERMEDIATE_SIZE
        &&& 1 <= self.moe_intermediate_size <= MAX_INTERMEDIATE_SIZE
        &&& 1 <= self.vocab_size <= MAX_VOCAB_SIZE
        &&& 1 <= self.max_position_embeddings <= MAX_MAX_POSITION_EMBEDDINGS
        &&& self.num_dense_layers <= self.num_hidden_layers
        &&& self.num_dense_layers < self.num_hidden_layers ==> self.routing().usable()
        &&& self.num_shared_experts > 0 ==> 1 <= self.moe_intermediate_size * self.num_shared_experts <= MAX_INTERMEDIATE_SIZE
        &&& finite(self.rope_theta.bits) && positive(self.rope_theta.bits)
        &&& finite(self.rms_norm_eps.bits) && positive(self.rms_norm_eps.bits)
    }
}

proof fn lemma_kinds(types: Seq<String>, i: int)
    requires 0 <= i <= types.len(), kinds_from(types, i) is Ok,
    ensures forall|j: int| i <= j < types.len() ==> is_layer_kind(#[trigger] types[j]@),
    decreases types.len() - i,
{
    if i < types.len() {
        lemma_kinds(types, i + 1);
    }
}

proof fn lemma_kinds_ok(types: Seq<String>, i: int)
    requires
        0 <= i <= types.len(),
        forall|j: int| i <= j < types.len() ==> is_layer_kind(#[trigger] types[j]@),
    ensures kinds_from(types, i) is Ok,
    decreases types.len() - i,
{
    if i < types.len() {
        lemma_kinds_ok(types, i + 1);
    }
}

/// A config passes validation exactly when every scalar is in its range, positions are not
/// scaled, and the engine accepts the quantization parameters: nothing that later divides, sizes a
/// buffer or picks an index can be zero or out of bounds.
pub proof fn validated_config_is_usable(args: ModelArgs, refusal: Option<&str>)
    ensures
        args.finding(refusal) is Ok <==> {
            &&& args.usable()
            &&& args.num_shared_experts <= MAX_NUM_SHARED_EXPERTS
            &&& rope_scaling("AFMoE"@, args.rope_scaling) is Ok
            &&& args.quantization is Some ==> refusal is None
        },
{
    if kinds_from(args.layer_types@, 0) is Ok {
        lemma_kinds(args.layer_types@, 0);
    }
    if args.usable() {
        lemma_kinds_ok(args.layer_types@, 0);
    }
}

/// The checkpoint as AFMoE looks at it.
pub open spec fn checkpoint_view(
    weights: Map<Seq<char>, Seq<i32>>,
    answers: Map<Seq<char>, Option<Seq<char>>>,
    args: ModelArgs,
) -> CheckpointView {
    CheckpointView {
        weights,
        answers,
        group_size: args.spec_group_size(),
        bits: args.spec_bits(),
        style: ProjectionStyle::Plain,
    }
}

/// The feed-forward tensors of layer `i`, named under `mlp`.
pub open spec fn feed_forward_verdict(c: CheckpointView, args: ModelArgs, mlp: Seq<char>, i: nat) -> Verdict {
    let h = args.hidden_size as nat;
    let m = args.moe_intermediate_size as nat;
    let n = args.num_experts as nat;
    if i < args.num_dense_layers {
        c.mlp(mlp, h, args.intermediate_size as nat)
    } else {
        after(c.projection(mlp + ".router.gate"@, n, h),
        after(c.score_bias(mlp + ".expert_bias"@, n),
        after(c.stacked(mlp + ".experts.gate_proj"@, n, m, h),
        after(c.stacked(mlp + ".experts.up_proj"@, n, m, h),
        after(c.stacked(mlp + ".experts.down_proj"@, n, h, m),
            if args.num_shared_experts > 0 {
                c.mlp(mlp + ".shared_experts"@, h, args.spec_shared_width())
            } else {
                Verdict::Pass
            })))))
    }
}

/// The attention tensors of a layer, named under `a`.
pub open spec fn attention_verdict(c: CheckpointView, args: ModelArgs, a: Seq<char>) -> Verdict {
    let h = args.hidden_size as nat;
    let d = args.head_dim as nat;
    let q = (args.num_attention_heads * args.head_dim) as nat;
    let kv = (args.num_key_value_heads * args.head_dim) as nat;
    after(c.projection(a + ".q_proj"@, q, h),
    after(c.projection(a + ".k_proj"@, kv, h),
    after(c.projection(a + ".v_proj"@, kv, h),
    after(c.projection(a + ".o_proj"@, h, q),
    after(c.projection(a + ".gate_proj"@, q, h),
    after(c.norm(a + ".q_norm.weight"@, d),
        c.norm(a + ".k_norm.weight"@, d)))))))
}

/// The tensors of layer `i`.
pub open spec fn layer_verdict(c: CheckpointView, args: ModelArgs, i: nat) -> Verdict {
    let p = layer_name(i);
    let h = args.hidden_size as nat;
    after(attention_verdict(c, args, p + ".self_attn"@),
    after(c.norm(p + ".input_layernorm.weight"@, h),
    after(c.norm(p + ".post_attention_layernorm.weight"@, h),
    after(c.norm(p + ".pre_mlp_layernorm.weight"@, h),
    after(c.norm(p + ".post_mlp_layernorm.weight"@, h),
        feed_forward_verdict(c, args, p + ".mlp"@, i))))))
}

/// The layers from `i` on.
pub open spec fn layers_verdict(c: CheckpointView, args: ModelArgs, i: nat) -> Verdict
    decreases args.num_hidden_layers - i,
{
    if i >= args.num_hidden_layers {
        Verdict::Pass
    } else {
        after(layer_verdict(c, args, i), layers_verdict(c, args, i + 1))
    }
}

/// A whole checkpoint.
pub open spec fn weights_verdict(c: CheckpointView, args: ModelArgs) -> Verdict {
    let h = args.hidden_size as nat;
    after(c.norm("model.norm.weight"@, h),
    after(c.packing("model.embed_tokens"@, h),
    after(if args.tie_word_embeddings { Verdict::Pass } else { c.projection("lm_head"@, args.vocab_size as nat, h) },
        layers_verdict(c, args, 0))))
}

fn validate_feed_forward(c: &Checkpoint<'_>, args: &ModelArgs, mlp: &str, layer: usize) -> (r: Outcome)
    ensures r@ == feed_forward_verdict(c@, *args, mlp@, layer as nat),
{
    let hidden: usize = args.hidden_size;
    let moe: usize = args.moe_intermediate_size;
    let experts: usize = args.num_experts;
    if !args.is_moe_layer(layer) {
        return c.mlp(mlp, hidden, args.intermediate_size);
    }
    let key: String = text(mlp).lit(".router.gate").done();
    let r: Outcome = c.projection(key.as_str(), experts, hidden);
    if !r.passed() { return r; }
    let key: String = text(mlp).lit(".expert_bias").done();
    let r: Outcome = c.score_bias(key.as_str(), experts);
    if !r.passed() { return r; }
    let key: String = text(mlp).lit(".experts.gate_proj").done();
    let r: Outcome = c.stacked(key.as_str(), experts, moe, hidden);
    if !r.passed() { return r; }
    let key: String = text(mlp).lit(".experts.up_proj").done();
    let r: Outcome = c.stacked(key.as_str(), experts, moe, hidden);
    if !r.passed() { return r; }
    let key: String = text(mlp).lit(".experts.down_proj").done();
    let r: Outcome = c.stacked(key.as_str(), experts, hidden, moe);
    if !r.passed() { return r; }
    if args.has_shared_expert() {
        let key: String = text(mlp).lit(".shared_experts").done();
        return c.mlp(key.as_str(), hidden, args.shared_expert_intermediate_size());
    }
    Outcome::Pass
}

fn validate_attention(c: &Checkpoint<'_>, args: &ModelArgs, attn: &str) -> (r: Outcome)
    requires
        args.num_attention_heads * args.head_dim <= usize::MAX,
        args.num_key_value_heads * args.head_dim <= usize::MAX,
    ensures r@ == attention_verdict(c@, *args, attn@),
{
    let hidden: usize = args.hidden_size;
    let head_dim: usize = args.head_dim;
    let q_size: usize = args.num_attention_heads * head_dim;
    let kv_size: usize = args.num_key_value_heads * head_dim;
    let key: String = text(attn).lit(".q_proj").done();
    let r: Outcome = c.projection(key.as_str(), q_size, hidden);
    if !r.passed() { return r; }
    let key: String = text(attn).lit(".k_proj").done();
    let r: Outcome = c.projection(key.as_str(), kv_size, hidden);
    if !r.passed() { return r; }
    let key: String = text(attn).lit(".v_proj").done();
    let r: Outcome = c.projection(key.as_str(), kv_size, hidden);
    if !r.passed() { return r; }
    let key: String = text(attn).lit(".o_proj").done();
    let r: Outcome = c.projection(key.as_str(), hidden, q_size);
    if !r.passed() { return r; }
    let key: String = text(attn).lit(".gate_proj").done();
    let r: Outcome = c.projection(key.as_str(), q_size, hidden);
    if !r.passed() { return r; }
    let key: String = text(attn).lit(".q_norm.weight").done();
    let r: Outcome = c.norm(key.as_str(), head_dim);
    if !r.passed() { return r; }
    let key: String = text(attn).lit(".k_norm.weight").done();
    c.norm(key.as_str(), head_dim)
}

fn validate_layer(c: &Checkpoint<'_>, args: &ModelArgs, layer: usize) -> (r: Outcome)
    requires
        args.num_attention_heads * args.head_dim <= usize::MAX,
        args.num_key_value_heads * args.head_dim <= usize::MAX,
    ensures r@ == layer_verdict(c@, *args, layer as nat),
{
    let hidden: usize = args.hidden_size;
    let prefix: String = layer_prefix(layer);
    let attn: String = text(prefix.as_str()).lit(".self_attn").done();
    let r: Outcome = validate_attention(c, args, attn.as_str());
    if !r.passed() { return r; }
    let key: String = text(prefix.as_str()).lit(".input_layernorm.weight").done();
    let r: Outcome = c.norm(key.as_str(), hidden);
    if !r.passed() { return r; }
    let key: String = text(prefix.as_str()).lit(".post_attention_layernorm.weight").done();
    let r: Outcome = c.norm(key.as_str(), hidden);
    if !r.passed() { return r; }
    let key: String = text(prefix.as_str()).lit(".pre_mlp_layernorm.weight").done();
    let r: Outcome = c.norm(key.as_str(), hidden);
    if !r.passed() { return r; }
    let key: String = text(prefix.as_str()).lit(".post_mlp_layernorm.weight").done();
    let r: Outcome = c.norm(key.as_str(), hidden);
    if !r.passed() { return r; }
    let mlp: String = text(prefix.as_str()).lit(".mlp").done();
    validate_feed_forward(c, args, mlp.as_str(), layer)
}

/// Rejects a checkpoint whose real tensor shapes disagree with the config, before any of them
/// reaches the engine. The packing of a quantized tensor is the engine's to judge: the outcome asks
/// for each judgement that is not among `answers`.
pub fn validate_weights(weights: &WeightMap, args: &ModelArgs, answers: &PackingAnswers) -> (r: Outcome)
    requires
        args.num_attention_heads * args.head_dim <= usize::MAX,
        args.num_key_value_heads * args.head_dim <= usize::MAX,
    ensures r@ == weights_verdict(checkpoint_view(weights@, answers@, *args), *args),
{
    let hidden: usize = args.hidden_size;
    let c: Checkpoint<'_> = Checkpoint {
        weights,
        answers,
        group_size: args.group_size(),
        bits: args.bits(),
        style: ProjectionStyle::Plain,
    };
    let r: Outcome = c.norm("model.norm.weight", hidden);
    if !r.passed() { return r; }
    let r: Outcome = c.packing("model.embed_tokens", hidden);
    if !r.passed() { return r; }
    if !args.tie_word_embeddings {
        let r: Outcome = c.projection("lm_head", args.vocab_size, hidden);
        if !r.passed() { return r; }
    }
    let mut layer: usize = 0;
    while layer < args.num_hidden_layers
        invariant
            layer <= args.num_hidden_layers,
            args.num_attention_heads * args.head_dim <= usize::MAX,
            args.num_key_value_heads * args.head_dim <= usize::MAX,
            c@ == checkpoint_view(weights@, answers@, *args),
            weights_verdict(c@, *args) == layers_verdict(c@, *args, layer as nat),
        decreases args.num_hidden_layers - layer,
    {
        let r: Outcome = validate_layer(&c, args, layer);
        if !r.passed() { return r; }
        layer = layer + 1;
    }
    Outcome::Pass
}

proof fn lemma_attention_asks(c: CheckpointView, args: ModelArgs, a: Seq<char>)
    ensures asks_soundly(c, attention_verdict(c, args, a)),
{
    let h = args.hidden_size as nat;
    let q = (args.num_attention_heads * args.head_dim) as nat;
    let kv = (args.num_key_value_heads * args.head_dim) as nat;
    lemma_projection_asks(c, a + ".q_proj"@, q, h);
    lemma_projection_asks(c, a + ".k_proj"@, kv, h);
    lemma_projection_asks(c, a + ".v_proj"@, kv, h);
    lemma_projection_asks(c, a + ".o_proj"@, h, q);
    lemma_projection_asks(c, a + ".gate_proj"@, q, h);
}

proof fn lemma_feed_forward_asks(c: CheckpointView, args: ModelArgs, mlp: Seq<char>, i: nat)
    ensures asks_soundly(c, feed_forward_verdict(c, args, mlp, i)),
{
    let h = args.hidden_size as nat;
    let m = args.moe_intermediate_size as nat;
    let n = args.num_experts as nat;
    if i < args.num_dense_layers {
        lemma_mlp_asks(c, mlp, h, args.intermediate_size as nat);
    } else {
        lemma_projection_asks(c, mlp + ".router.gate"@, n, h);
        lemma_stacked_asks(c, mlp + ".experts.gate_proj"@, n, m, h);
        lemma_stacked_asks(c, mlp + ".experts.up_proj"@, n, m, h);
        lemma_stacked_asks(c, mlp + ".experts.down_proj"@, n, h, m);
        lemma_mlp_asks(c, mlp + ".shared_experts"@, h, args.spec_shared_width());
    }
}

proof fn lemma_layers_ask(c: CheckpointView, args: ModelArgs, i: nat)
    ensures asks_soundly(c, layers_verdict(c, args, i)),
    decreases args.num_hidden_layers - i,
{
    if i < args.num_hidden_layers {
        lemma_layers_ask(c, args, i + 1);
        lemma_attention_asks(c, args, layer_name(i) + ".self_attn"@);
        lemma_feed_forward_asks(c, args, layer_name(i) + ".mlp"@, i);
    }
}

/// The engine is only ever asked about a quantized tensor that it has not judged yet, and is handed
/// that tensor's own shapes: a checkpoint without quantized tensors raises no question, and no
/// question comes back once it is answered.
pub proof fn questions_are_new(weights: Map<Seq<char>, Seq<i32>>, answers: Map<Seq<char>, Option<Seq<char>>>, args: ModelArgs)
    ensures
        asks_soundly(
            checkpoint_view(weights, answers, args),
            weights_verdict(checkpoint_view(weights, answers, args), args),
        ),
{
    lemma_layers_ask(checkpoint_view(weights, answers, args), args, 0);
}

proof fn lemma_layer_passes(c: CheckpointView, args: ModelArgs, from: nat, i: nat)
    requires
        layers_verdict(c, args, from) is Pass,
        from <= i < args.num_hidden_layers,
    ensures layer_verdict(c, args, i) is Pass,
    decreases i - from,
{
    if from < i {
        lemma_layer_passes(c, args, from + 1, i);
    }
}

/// In a checkpoint that passes, the router of a sparse layer scores exactly the configured experts
/// and every expert index below that number has a plane in each of the three stacks.
pub proof fn passing_experts_are_complete(c: CheckpointView, args: ModelArgs, i: nat)
    requires
        args.usable(),
        weights_verdict(c, args) is Pass,
        args.num_dense_layers <= i < args.num_hidden_layers,
    ensures
        ({
            let mlp = layer_name(i) + ".mlp"@;
            let router = c.weights[mlp + ".router.gate"@ + ".weight"@];
            &&& router.len() == 2 && router[0] == args.num_experts
            &&& c.weights[mlp + ".experts.gate_proj"@ + ".weight"@].len() == 3
            &&& c.weights[mlp + ".experts.gate_proj"@ + ".weight"@][0] >= args.num_experts
            &&& c.weights[mlp + ".experts.up_proj"@ + ".weight"@].len() == 3
            &&& c.weights[mlp + ".experts.up_proj"@ + ".weight"@][0] >= args.num_experts
            &&& c.weights[mlp + ".experts.down_proj"@ + ".weight"@].len() == 3
            &&& c.weights[mlp + ".experts.down_proj"@ + ".weight"@][0] >= args.num_experts
        }),
{
    lemma_layer_passes(c, args, 0, i);
}

/// In a checkpoint that passes, the fused widths of every attention block are those that the
/// config derives: query, gate and output rows, key and value rows, and the norms.
pub proof fn passing_attention_fits_config(c: CheckpointView, args: ModelArgs, i: nat)
    requires
        weights_verdict(c, args) is Pass,
        i < args.num_hidden_layers,
    ensures
        ({
            let a = layer_name(i) + ".self_attn"@;
            &&& c.weights[a + ".q_proj"@ + ".weight"@][0] == args.num_attention_heads * args.head_dim
            &&& c.weights[a + ".gate_proj"@ + ".weight"@][0] == args.num_attention_heads * args.head_dim
            &&& c.weights[a + ".k_proj"@ + ".weight"@][0] == args.num_key_value_heads * args.head_dim
            &&& c.weights[a + ".v_proj"@ + ".weight"@][0] == args.num_key_value_heads * args.head_dim
            &&& c.weights[a + ".o_proj"@ + ".weight"@][0] == args.hidden_size
            &&& c.weights[a + ".q_norm.weight"@] == seq![args.head_dim as i32]
            &&& c.weights[layer_name(i) + ".post_mlp_layernorm.weight"@] == seq![args.hidden_size as i32]
        }),
{
    lemma_layer_passes(c, args, 0, i);
}

/// The four norms of a layer: before and after the attention, before and after the feed-forward.
pub open spec fn is_layer_norm(leaf: Seq<char>) -> bool {
    ||| leaf == "input_layernorm"@
    ||| leaf == "post_attention_layernorm"@
    ||| leaf == "pre_mlp_layernorm"@
    ||| leaf == "post_mlp_layernorm"@
}

/// The key of a norm of layer `i`.
pub open spec fn layer_norm_key(i: nat, leaf: Seq<char>) -> Seq<char> {
    layer_name(i) + "."@ + leaf + ".weight"@
}

proof fn lemma_layer_norm_keys(i: nat)
    ensures
        layer_norm_key(i, "input_layernorm"@) == layer_name(i) + ".input_layernorm.weight"@,
        layer_norm_key(i, "post_attention_layernorm"@) == layer_name(i) + ".post_attention_layernorm.weight"@,
        layer_norm_key(i, "pre_mlp_layernorm"@) == layer_name(i) + ".pre_mlp_layernorm.weight"@,
        layer_norm_key(i, "post_mlp_layernorm"@) == layer_name(i) + ".post_mlp_layernorm.weight"@,
{
    reveal_strlit(".");
    reveal_strlit(".weight");
    reveal_strlit("input_layernorm");
    reveal_strlit(".input_layernorm.weight");
    reveal_strlit("post_attention_layernorm");
    reveal_strlit(".post_attention_layernorm.weight");
    reveal_strlit("pre_mlp_layernorm");
    reveal_strlit(".pre_mlp_layernorm.weight");
    reveal_strlit("post_mlp_layernorm");
    reveal_strlit(".post_mlp_layernorm.weight");
    assert(layer_norm_key(i, "input_layernorm"@) =~= layer_name(i) + ".input_layernorm.weight"@);
    assert(layer_norm_key(i, "post_attention_layernorm"@) =~= layer_name(i) + ".post_attention_layernorm.weight"@);
    assert(layer_norm_key(i, "pre_mlp_layernorm"@) =~= layer_name(i) + ".pre_mlp_layernorm.weight"@);
    assert(layer_norm_key(i, "post_mlp_layernorm"@) =~= layer_name(i) + ".post_mlp_layernorm.weight"@);
}

proof fn lemma_attention_without(c: CheckpointView, gone: Seq<char>, args: ModelArgs, a: Seq<char>)
    requires
        c.style == ProjectionStyle::Plain,
        weight_like(gone),
        attention_verdict(c, args, a) is Pass,
    ensures misses_only(attention_verdict(without(c, gone), args, a), gone),
{
    let h = args.hidden_size as nat;
    let d = args.head_dim as nat;
    let q = (args.num_attention_heads * args.head_dim) as nat;
    let kv = (args.num_key_value_heads * args.head_dim) as nat;
    lemma_projection_without(c, gone, a + ".q_proj"@, q, h);
    lemma_projection_without(c, gone, a + ".k_proj"@, kv, h);
    lemma_projection_without(c, gone, a + ".v_proj"@, kv, h);
    lemma_projection_without(c, gone, a + ".o_proj"@, h, q);
    lemma_projection_without(c, gone, a + ".gate_proj"@, q, h);
    lemma_norm_without(c, gone, a + ".q_norm.weight"@, d);
    lemma_norm_without(c, gone, a + ".k_norm.weight"@, d);
}

proof fn lemma_feed_forward_without(c: CheckpointView, gone: Seq<char>, args: ModelArgs, mlp: Seq<char>, i: nat)
    requires
        c.style == ProjectionStyle::Plain,
        weight_like(gone),
        feed_forward_verdict(c, args, mlp, i) is Pass,
    ensures misses_only(feed_forward_verdict(without(c, gone), args, mlp, i), gone),
{
    let h = args.hidden_size as nat;
    let m = args.moe_intermediate_size as nat;
    let n = args.num_experts as nat;
    if i < args.num_dense_layers {
        lemma_mlp_without(c, gone, mlp, h, args.intermediate_size as nat);
    } else {
        lemma_projection_without(c, gone, mlp + ".router.gate"@, n, h);
        reveal_strlit(".expert_bias");
        assert((mlp + ".expert_bias"@).last() == 's');
        lemma_stacked_without(c, gone, mlp + ".experts.gate_proj"@, n, m, h);
        lemma_stacked_without(c, gone, mlp + ".experts.up_proj"@, n, m, h);
        lemma_stacked_without(c, gone, mlp + ".experts.down_proj"@, n, h, m);
        if args.num_shared_experts > 0 {
            lemma_mlp_without(c, gone, mlp + ".shared_experts"@, h, args.spec_shared_width());
        }
    }
}

proof fn lemma_layers_without(c: CheckpointView, gone: Seq<char>, args: ModelArgs, i: nat)
    requires
        c.style == ProjectionStyle::Plain,
        weight_like(gone),
        layers_verdict(c, args, i) is Pass,
    ensures misses_only(layers_verdict(without(c, gone), args, i), gone),
    decreases args.num_hidden_layers - i,
{
    if i < args.num_hidden_layers {
        let p = layer_name(i);
        let h = args.hidden_size as nat;
        lemma_attention_without(c, gone, args, p + ".self_attn"@);
        lemma_norm_without(c, gone, p + ".input_layernorm.weight"@, h);
        lemma_norm_without(c, gone, p + ".post_attention_layernorm.weight"@, h);
        lemma_norm_without(c, gone, p + ".pre_mlp_layernorm.weight"@, h);
        lemma_norm_without(c, gone, p + ".post_mlp_layernorm.weight"@, h);
        lemma_feed_forward_without(c, gone, args, p + ".mlp"@, i);
        lemma_layers_without(c, gone, args, i + 1);
    }
}

proof fn lemma_layer_norm_key(i: nat, leaf: Seq<char>)
    ensures
        weight_like(layer_norm_key(i, leaf)),
        layer_norm_key(i, leaf) != "model.embed_tokens"@ + ".weight"@,
        occurs(missing_text(layer_norm_key(i, leaf)), leaf),
{
    let gone = layer_norm_key(i, leaf);
    reveal_strlit(".weight");
    reveal_strlit("model.embed_tokens");
    reveal_strlit("model.layers.");
    assert(("model.embed_tokens"@ + ".weight"@)[6] == 'e');
    assert(gone[6] == "model.layers."@[6]);
    let at = ("Weight not found: "@ + layer_name(i) + "."@).len() as int;
    assert(missing_text(gone).subrange(at, at + leaf.len()) =~= leaf);
    assert(starts_at(missing_text(gone), leaf, at));
}

/// Every layer needs all four of its norms: take any one of them out of a checkpoint that passes,
/// and the checkpoint is refused with a message that names it.
pub proof fn every_layer_norm_is_required(
    weights: Map<Seq<char>, Seq<i32>>,
    answers: Map<Seq<char>, Option<Seq<char>>>,
    args: ModelArgs,
    i: nat,
    leaf: Seq<char>,
)
    requires
        weights_verdict(checkpoint_view(weights, answers, args), args) is Pass,
        i < args.num_hidden_layers,
        is_layer_norm(leaf),
    ensures
        weights_verdict(checkpoint_view(weights.remove(layer_norm_key(i, leaf)), answers, args), args)
            == Verdict::Fail(missing_text(layer_norm_key(i, leaf))),
        occurs(missing_text(layer_norm_key(i, leaf)), leaf),
{
    let c = checkpoint_view(weights, answers, args);
    let gone = layer_norm_key(i, leaf);
    let d = without(c, gone);
    let h = args.hidden_size as nat;
    assert(d == checkpoint_view(weights.remove(gone), answers, args));
    lemma_layer_norm_key(i, leaf);
    lemma_norm_without(c, gone, "model.norm.weight"@, h);
    lemma_packing_without(c, gone, "model.embed_tokens"@, h);
    if !args.tie_word_embeddings {
        lemma_projection_without(c, gone, "lm_head"@, args.vocab_size as nat, h);
    }
    lemma_layers_without(c, gone, args, 0);
    if weights_verdict(d, args) is Pass {
        lemma_layer_passes(d, args, 0, i);
        lemma_layer_norm_keys(i);
        assert(!d.weights.contains_key(gone));
    }
}

/// One attention block: grouped-query attention with per-head norms, a sigmoid output gate, and a
/// rotation on the sliding layers only.
#[derive(Debug)]
pub struct Attention {
    pub num_heads: i32,
    pub num_kv_heads: i32,
    pub head_dim: i32,
    /// `false` on a full-attention layer, which has no positional encoding at all.
    pub uses_rope: bool,
    pub rope_base: Single,
}

/// The load steps of an attention block.
pub open spec fn attention_steps(s: Seq<StepView>, prefix: Seq<char>) -> Seq<StepView> {
    let s = step(s, StepKind::Linear, prefix + ".q_proj"@);
    let s = step(s, StepKind::Linear, prefix + ".k_proj"@);
    let s = step(s, StepKind::Linear, prefix + ".v_proj"@);
    let s = step(s, StepKind::Linear, prefix + ".o_proj"@);
    let s = step(s, StepKind::Linear, prefix + ".gate_proj"@);
    let s = step(s, StepKind::Tensor, prefix + ".q_norm.weight"@);
    step(s, StepKind::Tensor, prefix + ".k_norm.weight"@)
}

impl Attention {
    /// The head split of an input `[batch, length, hidden]`, and its rotation from `offset` on.
    pub fn forward(&self, x: &Vec<i32>, offset: i32) -> (r: HeadPlan)
        requires
            x@.len() >= 2,
            fits_mul(self.num_heads as int, self.head_dim as int),
        ensures
            r == (HeadPlan {
                batch: x@[0],
                length: x@[1],
                q_heads: self.num_heads,
                kv_heads: self.num_kv_heads,
                head_dim: self.head_dim,
                rope: if self.uses_rope {
                    Some(Rope { dims: self.head_dim, traditional: false, offset })
                } else {
                    None
                },
                width: (self.num_heads * self.head_dim) as i32,
            }),
    {
        let rope: Option<Rope> = if self.uses_rope {
            Some(Rope { dims: self.head_dim, traditional: false, offset })
        } else {
            None
        };
        HeadPlan {
            batch: x[0],
            length: x[1],
            q_heads: self.num_heads,
            kv_heads: self.num_kv_heads,
            head_dim: self.head_dim,
            rope,
            width: self.num_heads * self.head_dim,
        }
    }

    /// The kernel that reads the cached keys.
    pub fn attend(&self, length: i32, has_mask: bool) -> (r: AttendPlan)
        ensures r == causal_unless_masked(length, has_mask, 0),
    {
        attend_causal(length, has_mask, 0)
    }

    /// The block that a config describes, with its load steps.
    pub fn from_weights(args: &ModelArgs, prefix: &str, uses_rope: bool, steps: &mut Steps) -> (r: Self)
        ensures
            final(steps)@ == attention_steps(old(steps)@, prefix@),
            r.num_heads == args.num_attention_heads as i32,
            r.num_kv_heads == args.num_key_value_heads as i32,
            r.head_dim == args.head_dim as i32,
            r.uses_rope == uses_rope,
            r.rope_base.is_copy_of(args.rope_theta),
    {
        steps.push(StepKind::Linear, text(prefix).lit(".q_proj").done());
        steps.push(StepKind::Linear, text(prefix).lit(".k_proj").done());
        steps.push(StepKind::Linear, text(prefix).lit(".v_proj").done());
        steps.push(StepKind::Linear, text(prefix).lit(".o_proj").done());
        steps.push(StepKind::Linear, text(prefix).lit(".gate_proj").done());
        steps.push(StepKind::Tensor, text(prefix).lit(".q_norm.weight").done());
        steps.push(StepKind::Tensor, text(prefix).lit(".k_norm.weight").done());
        Attention {
            num_heads: args.num_attention_heads as i32,
            num_kv_heads: args.num_key_value_heads as i32,
            head_dim: args.head_dim as i32,
            uses_rope,
            rope_base: args.rope_theta.copy(),
        }
    }
}

/// The load steps of a SwiGLU block.
pub open spec fn mlp_steps(s: Seq<StepView>, prefix: Seq<char>) -> Seq<StepView> {
    let s = step(s, StepKind::Linear, prefix + ".gate_proj"@);
    let s = step(s, StepKind::Linear, prefix + ".up_proj"@);
    step(s, StepKind::Linear, prefix + ".down_proj"@)
}

/// A SwiGLU MLP, used for the dense prefix layers and for the shared expert.
#[derive(Clone, Copy, Debug)]
pub struct Mlp {}

impl Mlp {
    /// The block with its load steps.
    pub fn from_weights(prefix: &str, steps: &mut Steps) -> (r: Self)
        ensures final(steps)@ == mlp_steps(old(steps)@, prefix@),
    {
        steps.push(StepKind::Linear, text(prefix).lit(".gate_proj").done());
        steps.push(StepKind::Linear, text(prefix).lit(".up_proj").done());
        steps.push(StepKind::Linear, text(prefix).lit(".down_proj").done());
        Mlp {}
    }
}

/// The load steps of a sparse block.
pub open spec fn moe_steps(s: Seq<StepView>, args: ModelArgs, prefix: Seq<char>) -> Seq<StepView> {
    let s = step(s, StepKind::OptionalTensor, prefix + ".expert_bias"@);
    let s = step(s, StepKind::Linear, prefix + ".router.gate"@);
    let s = step(s, StepKind::Experts, prefix + ".experts"@);
    if args.num_shared_experts > 0 { mlp_steps(s, prefix + ".shared_experts"@) } else { s }
}

/// A sparse block: a router over routed experts, with an optional shared expert beside them.
#[derive(Debug)]
pub struct AfmoeMoe {
    /// Length of the zero bias that stands in for a missing `expert_bias` tensor.
    pub num_experts: i32,
    pub shared_experts: Option<Mlp>,
    pub top_k: i32,
    pub n_group: i32,
    pub topk_group: i32,
    pub route_norm: bool,
    pub route_scale: Single,
    pub score_func: ScoreFunc,
}

impl AfmoeMoe {
    /// The block that a config describes.
    pub open spec fn follows(&self, args: ModelArgs) -> bool {
        &&& self.num_experts == args.num_experts as i32
        &&& self.shared_experts is Some <==> args.num_shared_experts > 0
        &&& self.top_k == args.num_experts_per_tok as i32
        &&& self.n_group == args.n_group as i32
        &&& self.topk_group == (if args.topk_group > i32::MAX { i32::MAX } else { args.topk_group as i32 })
        &&& self.route_norm == args.route_norm
        &&& self.route_scale.is_copy_of(args.route_scale)
        &&& self.score_func == (if args.score_func@ == "softmax"@ { ScoreFunc::Softmax } else { ScoreFunc::Sigmoid })
    }

    /// The pivot of the selection: `top_k - 1`, held inside the row.
    pub open spec fn pivot(&self, n_experts: i32) -> int {
        let hi = if n_experts - 1 > 0 { n_experts - 1 } else { 0 };
        let k = self.top_k - 1;
        if k < 0 { 0 } else if k > hi { hi } else { k }
    }

    pub open spec fn spec_route(&self, n_experts: i32) -> RoutePlan {
        RoutePlan {
            scoring: if self.score_func == ScoreFunc::Sigmoid { Scoring::Sigmoid } else { Scoring::Softmax },
            selected_by: Basis::BiasedScore,
            weighed_by: Basis::Score,
            groups: if self.n_group > 1 { Some((self.n_group, self.topk_group)) } else { None },
            descending: true,
            kth: self.pivot(n_experts) as i32,
            first: 0,
            stop: self.top_k,
            divisor: if self.route_norm && self.top_k > 1 { Some(Divisor::Sum) } else { None },
            scale: Some(self.route_scale.bits),
            weights_in: Precision::Single,
        }
    }

    /// How the experts of each token are picked from a row of `n_experts` scores. The bias enters
    /// the selection only; the weights are gathered from the unbiased scores, and stay in single
    /// precision.
    pub fn route(&self, n_experts: i32) -> (r: RoutePlan)
        requires self.top_k > i32::MIN, n_experts > i32::MIN,
        ensures r == self.spec_route(n_experts),
    {
        let hi: i32 = if n_experts - 1 > 0 { n_experts - 1 } else { 0 };
        let k: i32 = self.top_k - 1;
        let kth: i32 = if k < 0 { 0 } else if k > hi { hi } else { k };
        let groups: Option<(i32, i32)> = if self.n_group > 1 {
            Some((self.n_group, self.topk_group))
        } else {
            None
        };
        RoutePlan {
            scoring: if self.score_func == ScoreFunc::Sigmoid { Scoring::Sigmoid } else { Scoring::Softmax },
            selected_by: Basis::BiasedScore,
            weighed_by: Basis::Score,
            groups,
            descending: true,
            kth,
            first: 0,
            stop: self.top_k,
            divisor: if self.route_norm && self.top_k > 1 { Some(Divisor::Sum) } else { None },
            scale: Some(self.route_scale.bits),
            weights_in: Precision::Single,
        }
    }

    /// How the block flattens its input.
    pub fn forward(&self, x: &Vec<i32>) -> (r: FlatPlan)
        requires
            x@.len() >= 2,
            countable(x@.drop_last()),
        ensures
            r == flat_plan(x@),
    {
        flatten(x)
    }

    /// The block that a config describes, with its load steps.
    pub fn from_weights(args: &ModelArgs, prefix: &str, steps: &mut Steps) -> (r: Self)
        ensures
            final(steps)@ == moe_steps(old(steps)@, *args, prefix@),
            r.follows(*args),
    {
        steps.push(StepKind::OptionalTensor, text(prefix).lit(".expert_bias").done());
        steps.push(StepKind::Linear, text(prefix).lit(".router.gate").done());
        steps.push(StepKind::Experts, text(prefix).lit(".experts").done());
        let shared_experts: Option<Mlp> = if args.has_shared_expert() {
            let key: String = text(prefix).lit(".shared_experts").done();
            Some(Mlp::from_weights(key.as_str(), steps))
        } else {
            None
        };
        AfmoeMoe {
            num_experts: args.num_experts as i32,
            shared_experts,
            top_k: args.num_experts_per_tok as i32,
            n_group: args.n_group as i32,
            topk_group: if args.topk_group > i32::MAX as usize { i32::MAX } else { args.topk_group as i32 },
            route_norm: args.route_norm,
            route_scale: args.route_scale.copy(),
            score_func: args.score_func(),
        }
    }
}

/// Either the dense prefix MLP or the sparse block, per layer.
#[derive(Debug)]
pub enum FeedForward {
    Dense(Mlp),
    Sparse(AfmoeMoe),
}

/// One block: a sandwich-normed attention branch and feed-forward branch.
#[derive(Debug)]
pub struct DecoderLayer {
    pub self_attn: Attention,
    pub mlp: FeedForward,
    pub uses_sliding: bool,
}

/// The load steps of layer `i`.
pub open spec fn layer_steps(s: Seq<StepView>, args: ModelArgs, i: nat) -> Seq<StepView> {
    let p = layer_name(i);
    let s = attention_steps(s, p + ".self_attn"@);
    let s = if i >= args.num_dense_layers { moe_steps(s, args, p + ".mlp"@) } else { mlp_steps(s, p + ".mlp"@) };
    let s = step(s, StepKind::Tensor, p + ".input_layernorm.weight"@);
    let s = step(s, StepKind::Tensor, p + ".post_attention_layernorm.weight"@);
    let s = step(s, StepKind::Tensor, p + ".pre_mlp_layernorm.weight"@);
    step(s, StepKind::Tensor, p + ".post_mlp_layernorm.weight"@)
}

impl DecoderLayer {
    /// Layer `i` as the config describes it: it slides as the schedule says, it rotates exactly
    /// where it slides, and it is sparse past the dense prefix.
    pub open spec fn describes(&self, args: ModelArgs, i: int) -> bool {
        &&& self.uses_sliding == args.slides(i)
        &&& self.self_attn.uses_rope == args.slides(i)
        &&& self.self_attn.num_heads == args.num_attention_heads as i32
        &&& self.self_attn.num_kv_heads == args.num_key_value_heads as i32
        &&& self.self_attn.head_dim == args.head_dim as i32
        &&& self.mlp is Sparse <==> i >= args.num_dense_layers
        &&& self.self_attn.rope_base.is_copy_of(args.rope_theta)
        &&& self.mlp matches FeedForward::Sparse(m) ==> m.follows(args)
    }

    /// The layer that a config describes, with its load steps.
    pub fn from_weights(args: &ModelArgs, layer_idx: usize, steps: &mut Steps) -> (r: Self)
        ensures
            final(steps)@ == layer_steps(old(steps)@, *args, layer_idx as nat),
            r.describes(*args, layer_idx as int),
    {
        let prefix: String = layer_prefix(layer_idx);
        let uses_sliding: bool = args.is_sliding_layer(layer_idx);
        let attn: String = text(prefix.as_str()).lit(".self_attn").done();
        let mlp_key: String = text(prefix.as_str()).lit(".mlp").done();
        let self_attn: Attention = Attention::from_weights(args, attn.as_str(), uses_sliding, steps);
        let mlp: FeedForward = if args.is_moe_layer(layer_idx) {
            FeedForward::Sparse(AfmoeMoe::from_weights(args, mlp_key.as_str(), steps))
        } else {
            FeedForward::Dense(Mlp::from_weights(mlp_key.as_str(), steps))
        };
        steps.push(StepKind::Tensor, text(prefix.as_str()).lit(".input_layernorm.weight").done());
        steps.push(StepKind::Tensor, text(prefix.as_str()).lit(".post_attention_layernorm.weight").done());
        steps.push(StepKind::Tensor, text(prefix.as_str()).lit(".pre_mlp_layernorm.weight").done());
        steps.push(StepKind::Tensor, text(prefix.as_str()).lit(".post_mlp_layernorm.weight").done());
        DecoderLayer { self_attn, mlp, uses_sliding }
    }
}

/// The cache of one layer.
#[derive(Clone, Copy, Debug, PartialEq, Eq, Structural)]
pub enum CacheFlavour {
    /// A rotating cache that keeps `window` keys.
    Rotating { window: i32 },
    /// A cache that keeps every key.
    Standard,
}

/// The prefill masks of one forward pass.
#[derive(Clone, Copy, Debug)]
pub struct MaskPlan {
    /// Keys already live under the causal mask.
    pub full: Option<i32>,
    /// Keys already live under the windowed mask, and the window.
    pub sliding: Option<(i32, i32)>,
}

/// The mask that one layer is given.
#[derive(Clone, Copy, Debug, PartialEq, Eq, Structural)]
pub enum MaskChoice {
    Full,
    Sliding,
    Nothing,
}

/// The load steps of the first `n` layers, behind the embedding table.
pub open spec fn stack_steps(args: ModelArgs, n: nat) -> Seq<StepView>
    decreases n,
{
    if n == 0 {
        step(Seq::empty(), StepKind::Embedding, "model.embed_tokens"@)
    } else {
        layer_steps(stack_steps(args, (n - 1) as nat), args, (n - 1) as nat)
    }
}

/// The load steps of a whole model.
pub open spec fn model_steps(args: ModelArgs) -> Seq<StepView> {
    let s = step(stack_steps(args, args.num_hidden_layers as nat), StepKind::Tensor, "model.norm.weight"@);
    if args.tie_word_embeddings { s } else { step(s, StepKind::Linear, "lm_head"@) }
}

/// Arcee AFMoE.
#[derive(Debug)]
pub struct AfmoeModel {
    pub layers: Vec<DecoderLayer>,
    /// Whether the output projection is the embedding table.
    pub tied: bool,
    pub mup_enabled: bool,
    pub sliding_window: i32,
    pub full_attention_index: Option<usize>,
    pub sliding_index: Option<usize>,
    pub eos_token_ids: Vec<i32>,
}

impl AfmoeModel {
    /// The two mask indices point at layers of their kind, where there is one.
    pub open spec fn wf(&self) -> bool {
        &&& self.full_attention_index matches Some(i) ==> i < self.layers@.len() && !self.layers@[i as int].uses_sliding
        &&& self.sliding_index matches Some(i) ==> i < self.layers@.len() && self.layers@[i as int].uses_sliding
        &&& forall|i: int| 0 <= i < self.layers@.len() && (#[trigger] self.layers@[i]).uses_sliding ==> self.sliding_index is Some
        &&& forall|i: int| 0 <= i < self.layers@.len() && !(#[trigger] self.layers@[i]).uses_sliding ==> self.full_attention_index is Some
    }

    /// The prefill masks: none for a single token; otherwise one per attention kind, sized by the
    /// live length of that kind's first cache.
    pub open spec fn spec_masks(&self, seq_len: i32, live: Seq<i32>) -> MaskPlan {
        MaskPlan {
            full: if seq_len > 1 {
                Some(match self.full_attention_index { Some(i) => live[i as int], None => 0 })
            } else {
                None
            },
            sliding: if seq_len > 1 {
                match self.sliding_index { Some(i) => Some((live[i as int], self.sliding_window)), None => None }
            } else {
                None
            },
        }
    }

    /// The mask of one layer: that of its kind.
    pub open spec fn spec_layer_mask(&self, masks: MaskPlan, layer: int) -> MaskChoice {
        if self.layers@[layer].uses_sliding {
            if masks.sliding is Some { MaskChoice::Sliding } else { MaskChoice::Nothing }
        } else {
            if masks.full is Some { MaskChoice::Full } else { MaskChoice::Nothing }
        }
    }

    /// The prefill masks: none for a single token; otherwise one per attention kind, sized by the
    /// live length of that kind's first cache.
    pub fn forward(&self, seq_len: i32, live: &Vec<i32>) -> (r: MaskPlan)
        requires
            self.wf(),
            live@.len() == self.layers@.len(),
        ensures r == self.spec_masks(seq_len, live@),
    {
        if seq_len > 1 {
            let full: i32 = match self.full_attention_index {
                Some(i) => live[i],
                None => 0,
            };
            let sliding: Option<(i32, i32)> = match self.sliding_index {
                Some(i) => Some((live[i], self.sliding_window)),
                None => None,
            };
            MaskPlan { full: Some(full), sliding }
        } else {
            MaskPlan { full: None, sliding: None }
        }
    }

    /// The mask of one layer: that of its kind.
    pub fn layer_mask(&self, masks: &MaskPlan, layer: usize) -> (r: MaskChoice)
        requires layer < self.layers@.len(),
        ensures r == self.spec_layer_mask(*masks, layer as int),
    {
        if self.layers[layer].uses_sliding {
            if masks.sliding.is_some() { MaskChoice::Sliding } else { MaskChoice::Nothing }
        } else {
            if masks.full.is_some() { MaskChoice::Full } else { MaskChoice::Nothing }
        }
    }

    /// One cache per layer: a rotating one where the layer slides.
    pub fn make_internal_caches(&self) -> (r: Vec<CacheFlavour>)
        ensures
            r@ == Seq::new(
                self.layers@.len(),
                |i: int| if self.layers@[i].uses_sliding {
                    CacheFlavour::Rotating { window: self.sliding_window }
                } else {
                    CacheFlavour::Standard
                },
            ),
    {
        let mut r: Vec<CacheFlavour> = Vec::new();
        let mut i: usize = 0;
        while i < self.layers.len()
            invariant
                i <= self.layers@.len(),
                r@ == Seq::new(
                    i as nat,
                    |j: int| if self.layers@[j].uses_sliding {
                        CacheFlavour::Rotating { window: self.sliding_window }
                    } else {
                        CacheFlavour::Standard
                    },
                ),
            decreases self.layers@.len() - i,
        {
            if self.layers[i].uses_sliding {
                r.push(CacheFlavour::Rotating { window: self.sliding_window });
            } else {
                r.push(CacheFlavour::Standard);
            }
            i = i + 1;
        }
        r
    }

    /// Whether a pass starts the model's own sequence afresh: a prompt outside any sequence does.
    pub fn forward_for_sequence(&self, has_sequence_id: bool, seq_len: i32) -> (r: bool)
        ensures r == (!has_sequence_id && seq_len > 1),
    {
        !has_sequence_id && seq_len > 1
    }

    /// The number of layers.
    pub fn num_layers(&self) -> (r: usize)
        ensures r == self.layers@.len(),
    {
        self.layers.len()
    }

    /// Validates the config and the checkpoint, and lays out the model with its load steps.
    pub fn from_weights(
        weights: &WeightMap,
        args: &ModelArgs,
        answers: &PackingAnswers,
        refusal: Option<&str>,
    ) -> (r: Build<AfmoeModel>)
        ensures
            match r {
                Build::Refused(e) => args.finding(refusal) == Err::<(), Seq<char>>(e@) || (
                    args.finding(refusal) is Ok
                        && weights_verdict(checkpoint_view(weights@, answers@, *args), *args) == Verdict::Fail(e@)),
                Build::Ask(q) => args.finding(refusal) is Ok
                    && weights_verdict(checkpoint_view(weights@, answers@, *args), *args) == Verdict::Ask(q@),
                Build::Ready(m, s) => {
                    &&& args.finding(refusal) is Ok
                    &&& weights_verdict(checkpoint_view(weights@, answers@, *args), *args) is Pass
                    &&& s@ == model_steps(*args)
                    &&& m.wf()
                    &&& m.layers@.len() == args.num_hidden_layers
                    &&& forall|i: int| 0 <= i < m.layers@.len() ==> (#[trigger] m.layers@[i]).describes(*args, i)
                    &&& m.tied == args.tie_word_embeddings
                    &&& m.full_attention_index matches Some(i) ==> forall|j: int| 0 <= j < i ==> args.slides(j)
                    &&& m.sliding_index matches Some(i) ==> forall|j: int| 0 <= j < i ==> !args.slides(j)
                    &&& m.mup_enabled == args.mup_enabled
                    &&& m.sliding_window == args.sliding_window as i32
                    &&& args.some_layer_slides() ==> m.sliding_window == args.sliding_window
                    &&& m.eos_token_ids@ == match args.eos_token_id {
                        Some(field) => field.spec_ids(),
                        None => Seq::<i32>::empty(),
                    }
                },
            },
    {
        match args.validate(refusal) {
            Err(e) => {
                return Build::Refused(e);
            },
            Ok(_) => {},
        }
        proof {
            validated_config_is_usable(*args, refusal);
            assert(args.num_attention_heads * args.head_dim <= 4096 * 8192) by (nonlinear_arith)
                requires args.num_attention_heads <= 4096, args.head_dim <= 8192;
            assert(args.num_key_value_heads * args.head_dim <= 4096 * 8192) by (nonlinear_arith)
                requires args.num_key_value_heads <= 4096, args.head_dim <= 8192;
        }
        match validate_weights(weights, args, answers) {
            Outcome::Pass => {},
            Outcome::Fail(e) => {
                return Build::Refused(e);
            },
            Outcome::Ask(q) => {
                return Build::Ask(q);
            },
        }
        let mut steps: Steps = Steps::new();
        steps.push(StepKind::Embedding, "model.embed_tokens".to_owned());
        let mut layers: Vec<DecoderLayer> = Vec::new();
        let mut i: usize = 0;
        while i < args.num_hidden_layers
            invariant
                i <= args.num_hidden_layers,
                layers@.len() == i,
                steps@ == stack_steps(*args, i as nat),
                forall|j: int| 0 <= j < i ==> (#[trigger] layers@[j]).describes(*args, j),
            decreases args.num_hidden_layers - i,
        {
            let layer: DecoderLayer = DecoderLayer::from_weights(args, i, &mut steps);
            layers.push(layer);
            i = i + 1;
        }
        steps.push(StepKind::Tensor, "model.norm.weight".to_owned());
        if !args.tie_word_embeddings {
            steps.push(StepKind::Linear, "lm_head".to_owned());
        }
        let full_attention_index: Option<usize> = args.full_attention_index();
        let sliding_index: Option<usize> = args.sliding_index();
        let model: AfmoeModel = AfmoeModel {
            layers,
            tied: args.tie_word_embeddings,
            mup_enabled: args.mup_enabled,
            sliding_window: args.sliding_window as i32,
            full_attention_index,
            sliding_index,
            eos_token_ids: args.eos_token_ids(),
        };
        Build::Ready(model, steps)
    }
}

/// A prompt is masked in every layer though it comes without a mask: the model makes one for each
/// layer, of the layer's own kind, and the layer attends under it.
pub proof fn prompt_is_masked_in_every_layer(model: AfmoeModel, seq_len: i32, live: Seq<i32>, layer: int)
    requires
        model.wf(),
        0 <= layer < model.layers@.len(),
        seq_len > 1,
    ensures
        ({
            let masks = model.spec_masks(seq_len, live);
            let choice = model.spec_layer_mask(masks, layer);
            &&& choice != MaskChoice::Nothing
            &&& choice == MaskChoice::Sliding <==> model.layers@[layer].uses_sliding
            &&& choice == MaskChoice::Sliding ==> (masks.sliding matches Some(s) && s.1 == model.sliding_window)
            &&& choice == MaskChoice::Full ==> masks.full is Some
            &&& causal_unless_masked(seq_len, choice != MaskChoice::Nothing, 0).kernel == Kernel::Masked { window: 0 }
        }),
{
}

/// A block laid out from a valid config splits and merges its heads without overflow, and the
/// rotation covers an even number of channels.
pub proof fn valid_attention_fits(args: ModelArgs, layer: DecoderLayer, i: int)
    requires
        args.usable(),
        layer.describes(args, i),
    ensures
        layer.self_attn.num_heads == args.num_attention_heads,
        layer.self_attn.head_dim == args.head_dim,
        layer.self_attn.head_dim % 2 == 0,
        fits_mul(layer.self_attn.num_heads as int, layer.self_attn.head_dim as int),
        layer.self_attn.num_heads * layer.self_attn.head_dim == args.num_attention_heads * args.head_dim,
{
    assert(args.num_attention_heads * args.head_dim <= 4096 * 8192) by (nonlinear_arith)
        requires args.num_attention_heads <= 4096, args.head_dim <= 8192;
    assert(args.num_attention_heads * args.head_dim >= 0) by (nonlinear_arith)
        requires args.num_attention_heads >= 0, args.head_dim >= 0;
}

/// Under a valid config the pivot of every router stays inside its row, and exactly the configured
/// number of experts is selected, those with the largest entries.
pub proof fn valid_route_stays_in_range(args: ModelArgs, layer: DecoderLayer, i: int)
    requires
        args.usable(),
        args.num_dense_layers <= i < args.num_hidden_layers,
        layer.describes(args, i),
    ensures
        layer.mlp matches FeedForward::Sparse(m) && {
            &&& m.top_k == args.num_experts_per_tok
            &&& m.num_experts == args.num_experts
            &&& m.spec_route(m.num_experts).picks_largest(args.num_experts as int, args.num_experts_per_tok as int)
        },
{
}

proof fn lemma_mlp_served(c: CheckpointView, s: Seq<StepView>, prefix: Seq<char>, hidden: nat, intermediate: nat)
    requires
        all_served(s, c.weights),
        c.mlp(prefix, hidden, intermediate) is Pass,
    ensures
        all_served(mlp_steps(s, prefix), c.weights),
{
}

proof fn lemma_attention_served(c: CheckpointView, s: Seq<StepView>, args: ModelArgs, a: Seq<char>)
    requires
        all_served(s, c.weights),
        attention_verdict(c, args, a) is Pass,
    ensures
        all_served(attention_steps(s, a), c.weights),
{
}

proof fn lemma_feed_forward_served(c: CheckpointView, s: Seq<StepView>, args: ModelArgs, mlp: Seq<char>, i: nat)
    requires
        all_served(s, c.weights),
        feed_forward_verdict(c, args, mlp, i) is Pass,
    ensures
        all_served(
            if i >= args.num_dense_layers { moe_steps(s, args, mlp) } else { mlp_steps(s, mlp) },
            c.weights,
        ),
{
    if i >= args.num_dense_layers {
        let t = step(s, StepKind::OptionalTensor, mlp + ".expert_bias"@);
        let t = step(t, StepKind::Linear, mlp + ".router.gate"@);
        let t = step(t, StepKind::Experts, mlp + ".experts"@);
        assert(all_served(t, c.weights));
    }
}

proof fn lemma_stack_served(c: CheckpointView, args: ModelArgs, n: nat)
    requires
        layers_verdict(c, args, 0) is Pass,
        n <= args.num_hidden_layers,
    ensures
        all_served(stack_steps(args, n), c.weights),
    decreases n,
{
    if n > 0 {
        let i = (n - 1) as nat;
        let p = layer_name(i);
        lemma_stack_served(c, args, i);
        lemma_layer_passes(c, args, 0, i);
        let s = stack_steps(args, i);
        lemma_attention_served(c, s, args, p + ".self_attn"@);
        lemma_feed_forward_served(c, attention_steps(s, p + ".self_attn"@), args, p + ".mlp"@, i);
    }
}

/// A checkpoint that passes holds every tensor that the load takes and the weight of every
/// projection that it builds, so no load step fails for want of one.
pub proof fn passing_checkpoint_serves_the_load(c: CheckpointView, args: ModelArgs)
    requires
        weights_verdict(c, args) is Pass,
    ensures
        all_served(model_steps(args), c.weights),
{
    lemma_stack_served(c, args, args.num_hidden_layers as nat);
}

} // verus!
