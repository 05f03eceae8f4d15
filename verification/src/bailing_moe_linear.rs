//! Ling linear MoE (`bailing_moe_linear`): Bailing MoE blocks whose attention is linear on most
//! layers and full on every last layer of a group.
use vstd::hash_map::StringHashMap;
use vstd::prelude::*;
use vstd::arithmetic::power2::{lemma2_to64, lemma_pow2_adds, lemma_pow2_pos, pow2};
use vstd::string::*;
use crate::bailing_moe::{
    attention_steps, fused_fits, fused_plan, has_expert, head_step, lemma_sparse_asks,
    lemma_head_served, lemma_mlp_served, lemma_sparse_complete, lemma_sparse_served, load_attention,
    load_lm_head, mlp_steps, plan_fused, router_key, sparse_steps, sparse_verdict, validate_sparse,
    BailingMoeMLP, BailingMoeSparseBlock, GateArgs, ScoreFunction,
};
use crate::json::ScalingBlock;
use crate::limits::{
    check_dense_prefix, check_kv_heads, check_norm_eps, check_quantization_params, check_range,
    check_rope_scaling, check_rope_theta, check_rotary_width, check_shared_width, dense_prefix,
    in_range, kv_heads, next, norm_eps, quantization_params, rope_scaling, rope_theta, rotary_width,
    shared_width, told, Finding, Routing, RoutingView, MAX_HEAD_DIM, MAX_HIDDEN_SIZE,
    MAX_INTERMEDIATE_SIZE, MAX_MAX_POSITION_EMBEDDINGS, MAX_NUM_ATTENTION_HEADS,
    MAX_NUM_HIDDEN_LAYERS, MAX_NUM_SHARED_EXPERTS, MAX_VOCAB_SIZE,
};
use crate::plan::{attend_causal, causal_unless_masked, AttendPlan, HeadPlan, QkvCut, Rope};
use crate::single::{finite, positive, scale_width, scaled_width, Single, ONE_BITS};
use crate::steps::{all_served, step, Build, StepKind, StepView, Steps};
use crate::text::{
    ascii_lowercase, dec, dec_int, digit, lower, same, shape_text, text, trim, trimmed,
};
use crate::weights::{
    after, asks_soundly, layer_name, layer_prefix, lemma_mlp_asks, lemma_projection_asks, missing,
    missing_text, Checkpoint, CheckpointView, Outcome, PackingAnswers, ProjectionStyle, Verdict,
    WeightMap,
};

verus! {

/// Tokens per chunk of a chunked prefill.
pub const GLA_CHUNK: i32 = 64;

/// Ling linear MoE `config.json`.
#[derive(Clone, Debug)]
pub struct ModelArgs {
    pub model_type: String,
    pub hidden_size: usize,
    pub num_hidden_layers: usize,
    pub num_attention_heads: usize,
    pub intermediate_size: usize,
    pub vocab_size: usize,
    /// As many as the query heads when absent.
    pub num_key_value_heads: Option<usize>,
    /// Head width of the full-attention layers; `hidden_size / num_attention_heads` when absent.
    pub head_dim: Option<usize>,
    /// `intermediate_size` when absent.
    pub moe_intermediate_size: Option<usize>,
    /// No routed experts when absent.
    pub num_experts: Option<usize>,
    pub num_shared_experts: usize,
    pub num_experts_per_tok: usize,
    pub norm_topk_prob: bool,
    /// Layers below this index use a plain SwiGLU MLP.
    pub first_k_dense_replace: usize,
    /// The last layer of each group of this size has full attention.
    pub layer_group_size: usize,
    /// Groups of the linear path's output normalizer.
    pub group_norm_size: usize,
    pub max_position_embeddings: usize,
    pub rms_norm_eps: Single,
    pub rope_theta: Single,
    pub rope_scaling: Option<ScalingBlock>,
    pub rope_traditional: bool,
    pub use_bias: bool,
    pub use_qkv_bias: bool,
    pub norm_head: bool,
    pub norm_softmax: bool,
    pub use_qk_norm: bool,
    pub use_rmsnorm: bool,
    pub tie_word_embeddings: bool,
    pub partial_rotary_factor: Single,
    pub moe_router_enable_expert_bias: bool,
    /// Never consulted: the routed weights are scaled in either case.
    pub moe_router_enable_routed_scaling: bool,
    pub routed_scaling_factor: Single,
    pub score_function: String,
    pub n_group: usize,
    pub topk_group: usize,
    pub moe_shared_expert_intermediate_size: Option<usize>,
    pub moe_router_enable_shared_expert: bool,
    pub eos_token_id: Option<TokenIdField>,
    pub quantization: Option<Quantization>,
}

/// A `config.json` token-id field, which may be a single int or a list of ints.
#[derive(Clone, Debug)]
pub enum TokenIdField {
    Single(i32),
    Multiple(Vec<i32>),
}

impl TokenIdField {
    /// The ids that the field lists.
    pub open spec fn spec_ids(&self) -> Seq<i32> {
        match self {
            TokenIdField::Single(id) => seq![*id],
            TokenIdField::Multiple(ids) => ids@,
        }
    }

    /// The ids that the field lists.
    pub fn ids(&self) -> (r: Vec<i32>)
        ensures r@ == self.spec_ids(),
    {
        match self {
            TokenIdField::Single(id) => {
                let r: Vec<i32> = vec![*id];
                assert(r@ =~= seq![*id]);
                r
            },
            TokenIdField::Multiple(ids) => crate::weights::copy_shape(ids),
        }
    }
}

/// The top-level `quantization` block.
#[derive(Clone, Copy, Debug)]
pub struct Quantization {
    pub group_size: i32,
    pub bits: i32,
}

pub fn default_model_type() -> (r: String)
    ensures r@ == "bailing_moe_linear"@,
{
    "bailing_moe_linear".to_owned()
}

pub fn default_num_experts_per_tok() -> (r: usize)
    ensures r == 1,
{
    1
}

pub fn default_norm_topk_prob() -> (r: bool)
    ensures r,
{
    true
}

pub fn default_layer_group_size() -> (r: usize)
    ensures r == 1,
{
    1
}

pub fn default_group_norm_size() -> (r: usize)
    ensures r == 1,
{
    1
}

pub fn default_max_position_embeddings() -> (r: usize)
    ensures r == 32_768,
{
    32_768
}

pub fn default_true() -> (r: bool)
    ensures r,
{
    true
}

pub fn default_score_function() -> (r: String)
    ensures r@ == "softmax"@,
{
    "softmax".to_owned()
}

pub fn default_n_group() -> (r: usize)
    ensures r == 1,
{
    1
}

pub fn default_topk_group() -> (r: usize)
    ensures r == 4,
{
    4
}

pub fn default_rms_norm_eps() -> (r: Single)
    ensures r.bits == 0x3586_37bd, r.text@ == "0.000001"@,
{
    Single { bits: 0x3586_37bd, text: "0.000001".to_owned() }
}

pub fn default_rope_theta() -> (r: Single)
    ensures r.bits == 0x4912_7c00, r.text@ == "600000"@,
{
    Single { bits: 0x4912_7c00, text: "600000".to_owned() }
}

pub fn default_partial_rotary_factor() -> (r: Single)
    ensures r.bits == 0x3f80_0000, r.text@ == "1"@,
{
    Single { bits: 0x3f80_0000, text: "1".to_owned() }
}

pub fn default_routed_scaling_factor() -> (r: Single)
    ensures r.bits == 0x3f80_0000, r.text@ == "1"@,
{
    Single { bits: 0x3f80_0000, text: "1".to_owned() }
}

impl ModelArgs {
    /// Head width of the linear-attention layers, whatever `head_dim` says.
    pub open spec fn spec_linear_head_dim(&self) -> nat {
        (self.hidden_size / self.num_attention_heads) as nat
    }

    /// Head width of the full-attention layers.
    pub open spec fn spec_head_dim(&self) -> nat {
        match self.head_dim {
            Some(d) => d as nat,
            None => self.spec_linear_head_dim(),
        }
    }

    pub open spec fn spec_attention_qkv_out(&self) -> nat {
        ((self.num_attention_heads + 2 * self.spec_kv_heads()) * self.spec_head_dim()) as nat
    }

    pub open spec fn spec_linear_width(&self) -> nat {
        (self.num_attention_heads * self.spec_linear_head_dim()) as nat
    }

    pub open spec fn spec_rope_dims(&self) -> int {
        scaled_width(self.partial_rotary_factor.bits, self.spec_head_dim())
    }

    pub open spec fn spec_linear_rope_dims(&self) -> int {
        scaled_width(self.partial_rotary_factor.bits, self.spec_linear_head_dim())
    }

    /// Layer `i` has full attention: it ends a group, or lies in the incomplete group at the end.
    pub open spec fn global(&self, i: int) -> bool {
        let g = self.layer_group_size as int;
        g == 0 || (i + 1) % g == 0 || i >= (self.num_hidden_layers as int) / g * g
    }

    /// Head width of the full-attention layers.
    pub fn head_dim(&self) -> (r: usize)
        requires self.num_attention_heads > 0,
        ensures r == self.spec_head_dim(),
    {
        match self.head_dim {
            Some(d) => d,
            None => self.hidden_size / self.num_attention_heads,
        }
    }

    /// Head width of the linear-attention layers.
    pub fn linear_head_dim(&self) -> (r: usize)
        requires self.num_attention_heads > 0,
        ensures r == self.spec_linear_head_dim(),
    {
        self.hidden_size / self.num_attention_heads
    }

    /// Output width of the fused projection of a full-attention layer.
    pub fn attention_qkv_out_features(&self) -> (r: usize)
        requires
            self.num_attention_heads > 0,
            self.num_attention_heads + 2 * self.spec_kv_heads() <= usize::MAX,
            self.spec_attention_qkv_out() <= usize::MAX,
        ensures r == self.spec_attention_qkv_out(),
    {
        (self.num_attention_heads + 2 * self.num_kv_heads()) * self.head_dim()
    }

    /// Output width of the fused projection of a linear-attention layer.
    pub fn linear_qkv_out_features(&self) -> (r: usize)
        requires
            self.num_attention_heads > 0,
            3 * self.num_attention_heads <= usize::MAX,
            3 * self.spec_linear_width() <= usize::MAX,
        ensures r == 3 * self.spec_linear_width(),
    {
        let h: usize = self.num_attention_heads;
        let d: usize = self.linear_head_dim();
        assert(3 * h * d == 3 * (h * d)) by (nonlinear_arith);
        3 * h * d
    }

    /// Rotated channels of a full-attention head.
    pub fn rope_dims(&self) -> (r: i32)
        requires self.num_attention_heads > 0,
        ensures r == self.spec_rope_dims(),
    {
        scale_width(&self.partial_rotary_factor, self.head_dim())
    }

    /// Rotated channels of a linear-attention head.
    pub fn linear_rope_dims(&self) -> (r: i32)
        requires self.num_attention_heads > 0,
        ensures r == self.spec_linear_rope_dims(),
    {
        scale_width(&self.partial_rotary_factor, self.linear_head_dim())
    }

    /// Whether layer `layer_idx` has full attention.
    pub fn is_global_layer(&self, layer_idx: usize) -> (r: bool)
        requires layer_idx < usize::MAX,
        ensures r == self.global(layer_idx as int),
    {
        if self.layer_group_size == 0 {
            return true;
        }
        let g: usize = self.layer_group_size;
        proof {
            let n = self.num_hidden_layers as int;
            vstd::arithmetic::div_mod::lemma_fundamental_div_mod(n, g as int);
            assert(n / (g as int) * (g as int) == (g as int) * (n / (g as int))) by (nonlinear_arith);
            assert(n / (g as int) * (g as int) >= 0) by (nonlinear_arith)
                requires n >= 0, g > 0;
        }
        (layer_idx + 1) % g == 0 || layer_idx >= self.num_hidden_layers / g * g
    }

    /// Index of the first full-attention layer.
    pub fn global_layer_index(&self) -> (r: Option<usize>)
        ensures
            match r {
                Some(i) => i < self.num_hidden_layers && self.global(i as int)
                    && forall|j: int| 0 <= j < i ==> !self.global(j),
                None => forall|j: int| 0 <= j < self.num_hidden_layers ==> !self.global(j),
            },
    {
        let mut i: usize = 0;
        while i < self.num_hidden_layers
            invariant
                i <= self.num_hidden_layers,
                forall|j: int| 0 <= j < i ==> !self.global(j),
            decreases self.num_hidden_layers - i,
        {
            if self.is_global_layer(i) {
                return Some(i);
            }
            i = i + 1;
        }
        None
    }

    pub open spec fn spec_kv_heads(&self) -> nat {
        match self.num_key_value_heads {
            Some(n) => n as nat,
            None => self.num_attention_heads as nat,
        }
    }

    pub open spec fn spec_moe_width(&self) -> nat {
        match self.moe_intermediate_size {
            Some(n) => n as nat,
            None => self.intermediate_size as nat,
        }
    }

    pub open spec fn spec_experts(&self) -> nat {
        match self.num_experts {
            Some(n) => n as nat,
            None => 0,
        }
    }

    /// Width of one shared expert.
    pub open spec fn spec_shared_dim(&self) -> nat {
        match self.moe_shared_expert_intermediate_size {
            Some(n) => n as nat,
            None => self.spec_moe_width(),
        }
    }

    pub open spec fn spec_shared_width(&self) -> nat {
        let w = self.spec_shared_dim() * self.num_shared_experts;
        if w > usize::MAX { usize::MAX as nat } else { w as nat }
    }

    pub open spec fn spec_has_shared(&self) -> bool {
        self.num_shared_experts > 0 && self.moe_router_enable_shared_expert
    }

    /// Layer `i` is sparse.
    pub open spec fn sparse(&self, i: int) -> bool {
        self.spec_experts() > 0 && i >= self.first_k_dense_replace
    }

    pub open spec fn spec_score_function(&self) -> ScoreFunction {
        if self.score_function@ == "sigmoid"@ { ScoreFunction::Sigmoid } else { ScoreFunction::Softmax }
    }

    pub open spec fn spec_group_size(&self) -> i32 {
        match self.quantization {
            Some(q) => q.group_size,
            None => 64,
        }
    }

    pub open spec fn spec_bits(&self) -> i32 {
        match self.quantization {
            Some(q) => q.bits,
            None => 4,
        }
    }

    pub open spec fn spec_eos(&self) -> Seq<i32> {
        match self.eos_token_id {
            Some(field) => field.spec_ids(),
            None => Seq::empty(),
        }
    }

    pub fn num_kv_heads(&self) -> (r: usize)
        ensures r == self.spec_kv_heads(),
    {
        match self.num_key_value_heads {
            Some(n) => n,
            None => self.num_attention_heads,
        }
    }

    pub fn moe_intermediate_size(&self) -> (r: usize)
        ensures r == self.spec_moe_width(),
    {
        match self.moe_intermediate_size {
            Some(n) => n,
            None => self.intermediate_size,
        }
    }

    pub fn num_experts(&self) -> (r: usize)
        ensures r == self.spec_experts(),
    {
        match self.num_experts {
            Some(n) => n,
            None => 0,
        }
    }

    pub fn has_routed_experts(&self) -> (r: bool)
        ensures r == (self.spec_experts() > 0),
    {
        self.num_experts() > 0
    }

    fn shared_dim(&self) -> (r: usize)
        ensures r == self.spec_shared_dim(),
    {
        match self.moe_shared_expert_intermediate_size {
            Some(n) => n,
            None => self.moe_intermediate_size(),
        }
    }

    /// Width of the shared expert, one MLP of `num_shared_experts` times the expert width, stopping
    /// at the largest `usize`.
    pub fn shared_expert_intermediate_size(&self) -> (r: usize)
        ensures r == self.spec_shared_width(),
    {
        match self.shared_dim().checked_mul(self.num_shared_experts) {
            Some(w) => w,
            None => usize::MAX,
        }
    }

    pub fn has_shared_expert(&self) -> (r: bool)
        ensures r == self.spec_has_shared(),
    {
        self.num_shared_experts > 0 && self.moe_router_enable_shared_expert
    }

    /// Whether layer `layer_idx` is sparse.
    pub fn is_moe_layer(&self, layer_idx: usize) -> (r: bool)
        ensures r == self.sparse(layer_idx as int),
    {
        self.has_routed_experts() && layer_idx >= self.first_k_dense_replace
    }

    pub fn score_function(&self) -> (r: ScoreFunction)
        ensures r == self.spec_score_function(),
    {
        if same(self.score_function.as_str(), "sigmoid") { ScoreFunction::Sigmoid } else { ScoreFunction::Softmax }
    }

    pub fn group_size(&self) -> (r: i32)
        ensures r == self.spec_group_size(),
    {
        match &self.quantization {
            Some(q) => q.group_size,
            None => 64,
        }
    }

    pub fn bits(&self) -> (r: i32)
        ensures r == self.spec_bits(),
    {
        match &self.quantization {
            Some(q) => q.bits,
            None => 4,
        }
    }

    pub fn eos_token_ids(&self) -> (r: Vec<i32>)
        ensures r@ == self.spec_eos(),
    {
        match &self.eos_token_id {
            Some(field) => field.ids(),
            None => Vec::new(),
        }
    }

    /// Whether the config clears `moe_router_enable_routed_scaling` beside a factor that would show:
    /// the flag is ignored, so the factor is applied all the same.
    pub fn routed_scaling_flag_is_ignored_observably(&self) -> (r: bool)
        ensures
            r == (self.spec_experts() > 0 && !self.moe_router_enable_routed_scaling
                && self.routed_scaling_factor.bits != ONE_BITS),
    {
        self.has_routed_experts() && !self.moe_router_enable_routed_scaling
            && !self.routed_scaling_factor.is_one()
    }

    /// What the router is configured with.
    pub open spec fn routing(&self) -> RoutingView {
        RoutingView {
            family: "Ling linear MoE"@,
            score_field: "score_function"@,
            score_choices: "\"softmax\" or \"sigmoid\""@,
            scale_field: "routed_scaling_factor"@,
            num_experts: self.spec_experts(),
            num_experts_per_tok: self.num_experts_per_tok as nat,
            score: self.score_function@,
            n_group: self.n_group as nat,
            topk_group: self.topk_group as nat,
            scale: self.routed_scaling_factor,
        }
    }

    /// The router parameters, where there are routed experts.
    pub open spec fn routing_finding(&self) -> Finding {
        if self.spec_experts() == 0 { Ok(()) } else { self.routing().finding() }
    }

    fn validate_routing(&self) -> (r: Result<(), String>)
        ensures told(r) == self.routing_finding(),
    {
        if !self.has_routed_experts() {
            return Ok(());
        }
        let routing: Routing<'_> = Routing {
            family: "Ling linear MoE",
            score_field: "score_function",
            score_choices: "\"softmax\" or \"sigmoid\"",
            scale_field: "routed_scaling_factor",
            num_experts: self.num_experts(),
            num_experts_per_tok: self.num_experts_per_tok,
            score: self.score_function.as_str(),
            n_group: self.n_group,
            topk_group: self.topk_group,
            scale: &self.routed_scaling_factor,
        };
        routing.check()
    }

    /// The width of the shared expert.
    pub open spec fn shared_finding(&self) -> Finding {
        shared_width(
            "Ling linear MoE"@,
            "moe_shared_expert_intermediate_size"@,
            true,
            self.spec_has_shared(),
            self.spec_shared_dim(),
            self.num_shared_experts as nat,
        )
    }

    fn validate_shared_expert(&self) -> (r: Result<(), String>)
        ensures told(r) == self.shared_finding(),
    {
        check_shared_width(
            "Ling linear MoE",
            "moe_shared_expert_intermediate_size",
            true,
            self.has_shared_expert(),
            self.shared_dim(),
            self.num_shared_experts,
        )
    }

    /// The warning that goes with an ignored scaling flag.
    pub open spec fn scaling_warning(&self) -> Seq<char> {
        "Ling linear MoE config sets moe_router_enable_routed_scaling: false with routed_scaling_factor "@
            + self.routed_scaling_factor.text@
            + ". Upstream mlx-lm stores that flag and never reads it, so the scaling multiply is unconditional; this loader mirrors upstream and applies the factor anyway."@
    }

    /// The warning to print when the scaling flag is ignored observably.
    pub fn warn_on_ignored_routed_scaling_flag(&self) -> (r: Option<String>)
        ensures
            r is Some <==> (self.spec_experts() > 0 && !self.moe_router_enable_routed_scaling
                && self.routed_scaling_factor.bits != ONE_BITS),
            r matches Some(w) ==> w@ == self.scaling_warning(),
    {
        if self.routed_scaling_flag_is_ignored_observably() {
            Some(
                text(
                    "Ling linear MoE config sets moe_router_enable_routed_scaling: false with routed_scaling_factor ",
                ).lit(self.routed_scaling_factor.text.as_str()).lit(
                    ". Upstream mlx-lm stores that flag and never reads it, so the scaling multiply is unconditional; this loader mirrors upstream and applies the factor anyway.",
                ).done(),
            )
        } else {
            None
        }
    }

    /// The advice at the end of a rotary-width message.
    pub open spec fn rope_advice(&self) -> Seq<char> {
        "partial_rotary_factor ("@ + self.partial_rotary_factor.text@ + ")"@
    }

    /// The rotation parameters of both head widths.
    pub open spec fn rope_finding(&self) -> Finding {
        if !finite(self.partial_rotary_factor.bits) {
            Err(
                "Ling linear MoE partial_rotary_factor ("@ + self.partial_rotary_factor.text@
                    + ") must be a finite number"@,
            )
        } else {
            next(rope_theta("Ling linear MoE"@, self.rope_theta),
            next(
                rotary_width(
                    "Ling linear MoE full-attention"@,
                    self.spec_rope_dims(),
                    self.spec_head_dim(),
                    self.rope_advice(),
                ),
                rotary_width(
                    "Ling linear MoE linear-attention"@,
                    self.spec_linear_rope_dims(),
                    self.spec_linear_head_dim(),
                    self.rope_advice(),
                )))
        }
    }

    fn validate_rope(&self) -> (r: Result<(), String>)
        requires self.num_attention_heads > 0,
        ensures told(r) == self.rope_finding(),
    {
        if !self.partial_rotary_factor.is_finite() {
            return Err(
                text("Ling linear MoE partial_rotary_factor (").lit(
                    self.partial_rotary_factor.text.as_str(),
                ).lit(") must be a finite number").done(),
            );
        }
        let r: Result<(), String> = check_rope_theta("Ling linear MoE", &self.rope_theta);
        if r.is_err() { return r; }
        let advice: String = text("partial_rotary_factor (").lit(
            self.partial_rotary_factor.text.as_str(),
        ).lit(")").done();
        let r: Result<(), String> = check_rotary_width(
            "Ling linear MoE full-attention",
            self.rope_dims(),
            self.head_dim(),
            advice.as_str(),
        );
        if r.is_err() { return r; }
        check_rotary_width(
            "Ling linear MoE linear-attention",
            self.linear_rope_dims(),
            self.linear_head_dim(),
            advice.as_str(),
        )
    }

    /// No flag is set that nothing defines.
    pub open spec fn vendor_finding(&self) -> Finding {
        if self.norm_softmax {
            Err(
                "Ling linear MoE config sets norm_softmax: true, which no released implementation defines. mlx-lm declares the field and never reads it. Loading anyway would silently ignore a flag the checkpoint author set on purpose."@,
            )
        } else if !self.use_rmsnorm {
            Err(
                "Ling linear MoE config sets use_rmsnorm: false, which no released implementation defines. mlx-lm declares the field and never reads it: every normalizer in bailing_moe_linear.py is an nn.RMSNorm or a GroupRMSNorm unconditionally. Loading anyway would silently ignore a flag the checkpoint author set on purpose."@,
            )
        } else {
            Ok(())
        }
    }

    fn validate_vendor_flags(&self) -> (r: Result<(), String>)
        ensures told(r) == self.vendor_finding(),
    {
        if self.norm_softmax {
            return Err(
                "Ling linear MoE config sets norm_softmax: true, which no released implementation defines. mlx-lm declares the field and never reads it. Loading anyway would silently ignore a flag the checkpoint author set on purpose.".to_owned(),
            );
        }
        if !self.use_rmsnorm {
            return Err(
                "Ling linear MoE config sets use_rmsnorm: false, which no released implementation defines. mlx-lm declares the field and never reads it: every normalizer in bailing_moe_linear.py is an nn.RMSNorm or a GroupRMSNorm unconditionally. Loading anyway would silently ignore a flag the checkpoint author set on purpose.".to_owned(),
            );
        }
        Ok(())
    }

    /// The heads divide the hidden width.
    pub open spec fn divides_finding(&self) -> Finding {
        if self.hidden_size as nat % self.num_attention_heads as nat != 0 {
            Err(
                "Ling linear MoE hidden_size ("@ + dec(self.hidden_size as nat)
                    + ") must be divisible by num_attention_heads ("@ + dec(self.num_attention_heads as nat)
                    + "); the linear-attention layers derive their head width as hidden_size // num_attention_heads regardless of any explicit head_dim"@,
            )
        } else {
            Ok(())
        }
    }

    fn validate_divides(&self) -> (r: Result<(), String>)
        requires self.num_attention_heads > 0,
        ensures told(r) == self.divides_finding(),
    {
        if self.hidden_size % self.num_attention_heads != 0 {
            return Err(
                text("Ling linear MoE hidden_size (").num(self.hidden_size).lit(
                    ") must be divisible by num_attention_heads (",
                ).num(self.num_attention_heads).lit(
                    "); the linear-attention layers derive their head width as hidden_size // num_attention_heads regardless of any explicit head_dim",
                ).done(),
            );
        }
        Ok(())
    }

    /// The layer groups and the norm groups.
    pub open spec fn groups_finding(&self) -> Finding {
        let width = self.spec_linear_width();
        if self.layer_group_size == 0 {
            Err(
                "Ling linear MoE layer_group_size must be at least 1; it is the modulus that selects the full-attention layers, and 0 would divide by zero"@,
            )
        } else if self.group_norm_size == 0 {
            Err(
                "Ling linear MoE group_norm_size must be at least 1; the linear path's output normalizer reshapes its last axis into that many groups"@,
            )
        } else if width % self.group_norm_size as nat != 0 {
            Err(
                "Ling linear MoE group_norm_size ("@ + dec(self.group_norm_size as nat)
                    + ") must divide the linear-attention output width ("@ + dec(width)
                    + " = num_attention_heads "@ + dec(self.num_attention_heads as nat) + " * head width "@
                    + dec(self.spec_linear_head_dim())
                    + "); GroupRMSNorm reshapes that axis into group_norm_size equal groups"@,
            )
        } else {
            Ok(())
        }
    }

    fn validate_groups(&self) -> (r: Result<(), String>)
        requires
            self.num_attention_heads > 0,
            self.spec_linear_width() <= usize::MAX,
        ensures told(r) == self.groups_finding(),
    {
        if self.layer_group_size == 0 {
            return Err(
                "Ling linear MoE layer_group_size must be at least 1; it is the modulus that selects the full-attention layers, and 0 would divide by zero".to_owned(),
            );
        }
        if self.group_norm_size == 0 {
            return Err(
                "Ling linear MoE group_norm_size must be at least 1; the linear path's output normalizer reshapes its last axis into that many groups".to_owned(),
            );
        }
        let width: usize = self.num_attention_heads * self.linear_head_dim();
        if width % self.group_norm_size != 0 {
            return Err(
                text("Ling linear MoE group_norm_size (").num(self.group_norm_size).lit(
                    ") must divide the linear-attention output width (",
                ).num(width).lit(" = num_attention_heads ").num(self.num_attention_heads).lit(
                    " * head width ",
                ).num(self.linear_head_dim()).lit(
                    "); GroupRMSNorm reshapes that axis into group_norm_size equal groups",
                ).done(),
            );
        }
        Ok(())
    }

    /// What is wrong with a config, if anything: the first check that does not hold, in order.
    /// `refusal` is the engine's error on the quantization parameters.
    pub open spec fn finding(&self, refusal: Option<&str>) -> Finding {
        let f = "Ling linear MoE"@;
        next(in_range(f, "num_attention_heads"@, self.num_attention_heads as nat, MAX_NUM_ATTENTION_HEADS as nat),
        next(in_range(f, "hidden_size"@, self.hidden_size as nat, MAX_HIDDEN_SIZE as nat),
        next(self.divides_finding(),
        next(in_range(f, "head_dim"@, self.spec_head_dim(), MAX_HEAD_DIM as nat),
        next(kv_heads(f, self.spec_kv_heads(), self.num_attention_heads as nat),
        next(in_range(f, "num_hidden_layers"@, self.num_hidden_layers as nat, MAX_NUM_HIDDEN_LAYERS as nat),
        next(self.groups_finding(),
        next(in_range(f, "intermediate_size"@, self.intermediate_size as nat, MAX_INTERMEDIATE_SIZE as nat),
        next(in_range(f, "moe_intermediate_size"@, self.spec_moe_width(), MAX_INTERMEDIATE_SIZE as nat),
        next(in_range(f, "vocab_size"@, self.vocab_size as nat, MAX_VOCAB_SIZE as nat),
        next(in_range(f, "max_position_embeddings"@, self.max_position_embeddings as nat, MAX_MAX_POSITION_EMBEDDINGS as nat),
        next(dense_prefix(f, "first_k_dense_replace"@, self.first_k_dense_replace as nat, self.num_hidden_layers as nat),
        next(self.routing_finding(),
        next(self.shared_finding(),
        next(self.rope_finding(),
        next(rope_scaling(f, self.rope_scaling),
        next(norm_eps(f, self.rms_norm_eps),
        next(self.vendor_finding(),
            quantization_params(f, self.quantization is Some, refusal)))))))))))))))))))
    }

    /// Rejects a config that cannot describe a real model of this family, before any of its fields
    /// sizes an allocation, divides, or reaches a kernel.
    pub fn validate(&self, refusal: Option<&str>) -> (r: Result<(), String>)
        ensures told(r) == self.finding(refusal),
    {
        let f: &str = "Ling linear MoE";
        let r: Result<(), String> = check_range(f, "num_attention_heads", self.num_attention_heads, MAX_NUM_ATTENTION_HEADS);
        if r.is_err() { return r; }
        let r: Result<(), String> = check_range(f, "hidden_size", self.hidden_size, MAX_HIDDEN_SIZE);
        if r.is_err() { return r; }
        let r: Result<(), String> = self.validate_divides();
        if r.is_err() { return r; }
        let r: Result<(), String> = check_range(f, "head_dim", self.head_dim(), MAX_HEAD_DIM);
        if r.is_err() { return r; }
        let r: Result<(), String> = check_kv_heads(f, self.num_kv_heads(), self.num_attention_heads);
        if r.is_err() { return r; }
        let r: Result<(), String> = check_range(f, "num_hidden_layers", self.num_hidden_layers, MAX_NUM_HIDDEN_LAYERS);
        if r.is_err() { return r; }
        proof { lemma_linear_width(*self); }
        let r: Result<(), String> = self.validate_groups();
        if r.is_err() { return r; }
        let r: Result<(), String> = check_range(f, "intermediate_size", self.intermediate_size, MAX_INTERMEDIATE_SIZE);
        if r.is_err() { return r; }
        let r: Result<(), String> = check_range(f, "moe_intermediate_size", self.moe_intermediate_size(), MAX_INTERMEDIATE_SIZE);
        if r.is_err() { return r; }
        let r: Result<(), String> = check_range(f, "vocab_size", self.vocab_size, MAX_VOCAB_SIZE);
        if r.is_err() { return r; }
        let r: Result<(), String> = check_range(f, "max_position_embeddings", self.max_position_embeddings, MAX_MAX_POSITION_EMBEDDINGS);
        if r.is_err() { return r; }
        let r: Result<(), String> = check_dense_prefix(f, "first_k_dense_replace", self.first_k_dense_replace, self.num_hidden_layers);
        if r.is_err() { return r; }
        let r: Result<(), String> = self.validate_routing();
        if r.is_err() { return r; }
        let r: Result<(), String> = self.validate_shared_expert();
        if r.is_err() { return r; }
        let r: Result<(), String> = self.validate_rope();
        if r.is_err() { return r; }
        let r: Result<(), String> = check_rope_scaling(f, &self.rope_scaling);
        if r.is_err() { return r; }
        let r: Result<(), String> = check_norm_eps(f, &self.rms_norm_eps);
        if r.is_err() { return r; }
        let r: Result<(), String> = self.validate_vendor_flags();
        if r.is_err() { return r; }
        check_quantization_params(f, self.quantization.is_some(), refusal)
    }

    /// The scalars of a config that a model can be built from.
    pub open spec fn usable(&self) -> bool {
        &&& 1 <= self.num_attention_heads <= MAX_NUM_ATTENTION_HEADS
        &&& 1 <= self.hidden_size <= MAX_HIDDEN_SIZE
        &&& self.hidden_size as nat % self.num_attention_heads as nat == 0
        &&& 1 <= self.spec_head_dim() <= MAX_HEAD_DIM
        &&& 1 <= self.spec_kv_heads() <= self.num_attention_heads
        &&& self.num_attention_heads as nat % self.spec_kv_heads() == 0
        &&& 1 <= self.num_hidden_layers <= MAX_NUM_HIDDEN_LAYERS
        &&& self.layer_group_size >= 1
        &&& self.group_norm_size >= 1
        &&& self.spec_linear_width() % self.group_norm_size as nat == 0
        &&& 1 <= self.intermediate_size <= MAX_INTERMEDIATE_SIZE
        &&& 1 <= self.spec_moe_width() <= MAX_INTERMEDIATE_SIZE
        &&& 1 <= self.vocab_size <= MAX_VOCAB_SIZE
        &&& 1 <= self.max_position_embeddings <= MAX_MAX_POSITION_EMBEDDINGS
        &&& self.first_k_dense_replace <= self.num_hidden_layers
        &&& self.spec_experts() > 0 ==> self.routing().usable()
        &&& self.spec_has_shared() ==> 1 <= self.spec_shared_dim() * self.num_shared_experts <= MAX_INTERMEDIATE_SIZE
        &&& finite(self.partial_rotary_factor.bits)
        &&& 2 <= self.spec_rope_dims() <= self.spec_head_dim()
        &&& self.spec_rope_dims() % 2 == 0
        &&& 2 <= self.spec_linear_rope_dims() <= self.spec_linear_head_dim()
        &&& self.spec_linear_rope_dims() % 2 == 0
        &&& finite(self.rope_theta.bits) && positive(self.rope_theta.bits)
        &&& finite(self.rms_norm_eps.bits) && positive(self.rms_norm_eps.bits)
        &&& !self.norm_softmax
        &&& self.use_rmsnorm
    }

    /// The widths that the tensors are held against fit a `usize`, and so do layer numbers.
    pub open spec fn sizable(&self) -> bool {
        &&& self.num_attention_heads > 0
        &&& self.num_attention_heads + 2 * self.spec_kv_heads() <= usize::MAX
        &&& 3 * self.num_attention_heads <= usize::MAX
        &&& self.spec_attention_qkv_out() <= usize::MAX
        &&& 3 * self.spec_linear_width() <= usize::MAX
    }
}

proof fn lemma_linear_width(args: ModelArgs)
    requires args.num_attention_heads > 0,
    ensures
        args.spec_linear_width() <= args.hidden_size,
        args.hidden_size as nat % args.num_attention_heads as nat == 0 ==> args.spec_linear_width() == args.hidden_size,
{
    vstd::arithmetic::div_mod::lemma_fundamental_div_mod(
        args.hidden_size as int,
        args.num_attention_heads as int,
    );
}

/// A config passes validation exactly when every scalar is in its range, positions are not scaled,
/// and the engine accepts the quantization parameters.
pub proof fn validated_config_is_usable(args: ModelArgs, refusal: Option<&str>)
    ensures
        args.finding(refusal) is Ok <==> {
            &&& args.usable()
            &&& args.num_shared_experts <= MAX_NUM_SHARED_EXPERTS
            &&& rope_scaling("Ling linear MoE"@, args.rope_scaling) is Ok
            &&& args.quantization is Some ==> refusal is None
        },
{
}

/// The widths of a usable config stay far below what a `usize` or an `i32` holds.
pub proof fn usable_widths_are_small(args: ModelArgs)
    requires args.usable(),
    ensures
        args.sizable(),
        args.spec_linear_width() == args.hidden_size,
        args.num_attention_heads * args.spec_head_dim() <= 4096 * 8192,
        args.spec_kv_heads() * args.spec_head_dim() <= 4096 * 8192,
        args.spec_attention_qkv_out() == args.num_attention_heads * args.spec_head_dim()
            + 2 * (args.spec_kv_heads() * args.spec_head_dim()),
{
    lemma_linear_width(args);
    let h = args.num_attention_heads as int;
    let k = args.spec_kv_heads() as int;
    let d = args.spec_head_dim() as int;
    assert((h + 2 * k) * d == h * d + 2 * (k * d)) by (nonlinear_arith);
    assert(h * d <= 4096 * 8192) by (nonlinear_arith) requires 0 <= h <= 4096, 0 <= d <= 8192;
    assert(k * d <= 4096 * 8192) by (nonlinear_arith) requires 0 <= k <= 4096, 0 <= d <= 8192;
}

/// Every stack has a full-attention layer, whose cache carries the position: a stack shorter than
/// one group has one too.
pub proof fn stack_has_a_global_layer(args: ModelArgs)
    requires args.num_hidden_layers > 0,
    ensures args.global(args.num_hidden_layers - 1),
{
    let g = args.layer_group_size as int;
    let n = args.num_hidden_layers as int;
    if g > 0 {
        vstd::arithmetic::div_mod::lemma_fundamental_div_mod(n, g);
        assert(n / g * g == g * (n / g)) by (nonlinear_arith);
    }
}

/// Complete groups have their full attention on the last layer only.
pub proof fn group_has_one_global_layer(args: ModelArgs, group: int, k: int)
    requires
        args.layer_group_size > 0,
        0 <= group < (args.num_hidden_layers as int) / (args.layer_group_size as int),
        0 <= k < args.layer_group_size,
    ensures
        args.global(group * args.layer_group_size + k) <==> k == args.layer_group_size - 1,
{
    let g = args.layer_group_size as int;
    let n = args.num_hidden_layers as int;
    let i = group * g + k;
    assert(i + 1 == g * group + (k + 1)) by (nonlinear_arith) requires i == group * g + k;
    assert(i < n / g * g) by (nonlinear_arith)
        requires i == group * g + k, k < g, group + 1 <= n / g, g > 0;
    if k == g - 1 {
        assert(i + 1 == g * (group + 1)) by (nonlinear_arith) requires i + 1 == g * group + (k + 1), k == g - 1;
        vstd::arithmetic::div_mod::lemma_mod_multiples_basic(group + 1, g);
        assert((group + 1) * g == g * (group + 1)) by (nonlinear_arith);
    } else {
        vstd::arithmetic::div_mod::lemma_fundamental_div_mod_converse(i + 1, g, group, k + 1);
    }
}


/// The checkpoint as this family looks at it.
pub open spec fn checkpoint_view(
    weights: Map<Seq<char>, Seq<i32>>,
    answers: Map<Seq<char>, Option<Seq<char>>>,
    args: ModelArgs,
) -> CheckpointView {
    CheckpointView {
        weights,
        answers,
        group_size: args.spec_group_size(),
        bits: args.spec_bits(),
        style: ProjectionStyle::Ling,
    }
}

/// The query and key norms of a layer, where the config has them.
pub open spec fn qk_norm_verdict(c: CheckpointView, args: ModelArgs, a: Seq<char>, head_dim: nat) -> Verdict {
    if args.use_qk_norm {
        after(
            c.norm(a + ".query_layernorm.weight"@, head_dim),
            c.norm(a + ".key_layernorm.weight"@, head_dim),
        )
    } else {
        Verdict::Pass
    }
}

/// The attention tensors of layer `i`, named under `a`: a linear layer has its own widths, and an
/// output gate with its norm besides.
pub open spec fn attention_verdict(c: CheckpointView, args: ModelArgs, a: Seq<char>, i: nat) -> Verdict {
    let h = args.hidden_size as nat;
    if args.global(i as int) {
        let d = args.spec_head_dim();
        after(c.projection(a + ".query_key_value"@, args.spec_attention_qkv_out(), h),
        after(c.projection(a + ".dense"@, h, (args.num_attention_heads * d) as nat),
            qk_norm_verdict(c, args, a, d)))
    } else {
        let w = args.spec_linear_width();
        after(c.projection(a + ".query_key_value"@, 3 * w, h),
        after(c.projection(a + ".dense"@, h, w),
        after(c.projection(a + ".g_proj"@, w, h),
        after(c.norm(a + ".g_norm.weight"@, w),
            qk_norm_verdict(c, args, a, args.spec_linear_head_dim())))))
    }
}

/// The feed-forward tensors of layer `i`, named under `mlp`.
pub open spec fn feed_forward_verdict(c: CheckpointView, args: ModelArgs, mlp: Seq<char>, i: nat) -> Verdict {
    if args.sparse(i as int) {
        sparse_verdict(
            c,
            mlp,
            args.spec_experts(),
            args.hidden_size as nat,
            args.spec_moe_width(),
            args.moe_router_enable_expert_bias,
            if args.spec_has_shared() { Some(args.spec_shared_width()) } else { None },
        )
    } else {
        c.mlp(mlp, args.hidden_size as nat, args.intermediate_size as nat)
    }
}

/// The tensors of layer `i`.
pub open spec fn layer_verdict(c: CheckpointView, args: ModelArgs, i: nat) -> Verdict {
    let p = layer_name(i);
    let h = args.hidden_size as nat;
    after(attention_verdict(c, args, p + ".attention"@, i),
    after(c.norm(p + ".input_layernorm.weight"@, h),
    after(c.norm(p + ".post_attention_layernorm.weight"@, h),
        feed_forward_verdict(c, args, p + ".mlp"@, i))))
}

/// The layers from `i` on.
pub open spec fn layers_verdict(c: CheckpointView, args: ModelArgs, i: nat) -> Verdict
    decreases args.num_hidden_layers - i,
{
    if i >= args.num_hidden_layers {
        Verdict::Pass
    } else {
        after(layer_verdict(c, args, i), layers_verdict(c, args, i + 1))
    }
}

/// A whole checkpoint.
pub open spec fn weights_verdict(c: CheckpointView, args: ModelArgs) -> Verdict {
    let h = args.hidden_size as nat;
    after(c.norm("model.norm.weight"@, h),
    after(c.packing("model.word_embeddings"@, h),
    after(if args.tie_word_embeddings { Verdict::Pass } else { c.projection("lm_head"@, args.vocab_size as nat, h) },
        layers_verdict(c, args, 0))))
}

fn validate_qk_norms(c: &Checkpoint<'_>, args: &ModelArgs, attention: &str, head_dim: usize) -> (r: Outcome)
    ensures r@ == qk_norm_verdict(c@, *args, attention@, head_dim as nat),
{
    if args.use_qk_norm {
        let key: String = text(attention).lit(".query_layernorm.weight").done();
        let r: Outcome = c.norm(key.as_str(), head_dim);
        if !r.passed() { return r; }
        let key: String = text(attention).lit(".key_layernorm.weight").done();
        return c.norm(key.as_str(), head_dim);
    }
    Outcome::Pass
}

proof fn lemma_sizable(args: ModelArgs)
    requires args.sizable(),
    ensures args.num_attention_heads * args.spec_head_dim() <= usize::MAX,
{
    let h = args.num_attention_heads as int;
    let k = args.spec_kv_heads() as int;
    let d = args.spec_head_dim() as int;
    assert((h + 2 * k) * d == h * d + 2 * (k * d)) by (nonlinear_arith);
    assert(k * d >= 0) by (nonlinear_arith) requires k >= 0, d >= 0;
}

fn validate_attention(c: &Checkpoint<'_>, args: &ModelArgs, attention: &str, layer: usize) -> (r: Outcome)
    requires args.sizable(), layer < usize::MAX,
    ensures r@ == attention_verdict(c@, *args, attention@, layer as nat),
{
    let hidden: usize = args.hidden_size;
    proof { lemma_sizable(*args); }
    let qkv: String = text(attention).lit(".query_key_value").done();
    let dense: String = text(attention).lit(".dense").done();
    if args.is_global_layer(layer) {
        let head_dim: usize = args.head_dim();
        let r: Outcome = c.projection(qkv.as_str(), args.attention_qkv_out_features(), hidden);
        if !r.passed() { return r; }
        let r: Outcome = c.projection(dense.as_str(), hidden, args.num_attention_heads * head_dim);
        if !r.passed() { return r; }
        return validate_qk_norms(c, args, attention, head_dim);
    }
    let head_dim: usize = args.linear_head_dim();
    let width: usize = args.num_attention_heads * head_dim;
    let r: Outcome = c.projection(qkv.as_str(), args.linear_qkv_out_features(), hidden);
    if !r.passed() { return r; }
    let r: Outcome = c.projection(dense.as_str(), hidden, width);
    if !r.passed() { return r; }
    let key: String = text(attention).lit(".g_proj").done();
    let r: Outcome = c.projection(key.as_str(), width, hidden);
    if !r.passed() { return r; }
    let key: String = text(attention).lit(".g_norm.weight").done();
    let r: Outcome = c.norm(key.as_str(), width);
    if !r.passed() { return r; }
    validate_qk_norms(c, args, attention, head_dim)
}

fn validate_feed_forward(c: &Checkpoint<'_>, args: &ModelArgs, mlp: &str, layer: usize) -> (r: Outcome)
    ensures r@ == feed_forward_verdict(c@, *args, mlp@, layer as nat),
{
    if args.is_moe_layer(layer) {
        let shared: Option<usize> = if args.has_shared_expert() {
            Some(args.shared_expert_intermediate_size())
        } else {
            None
        };
        validate_sparse(
            c,
            mlp,
            args.num_experts(),
            args.hidden_size,
            args.moe_intermediate_size(),
            args.moe_router_enable_expert_bias,
            shared,
        )
    } else {
        c.mlp(mlp, args.hidden_size, args.intermediate_size)
    }
}

fn validate_layer(c: &Checkpoint<'_>, args: &ModelArgs, layer: usize) -> (r: Outcome)
    requires args.sizable(), layer < usize::MAX,
    ensures r@ == layer_verdict(c@, *args, layer as nat),
{
    let hidden: usize = args.hidden_size;
    let prefix: String = layer_prefix(layer);
    let attention: String = text(prefix.as_str()).lit(".attention").done();
    let r: Outcome = validate_attention(c, args, attention.as_str(), layer);
    if !r.passed() { return r; }
    let key: String = text(prefix.as_str()).lit(".input_layernorm.weight").done();
    let r: Outcome = c.norm(key.as_str(), hidden);
    if !r.passed() { return r; }
    let key: String = text(prefix.as_str()).lit(".post_attention_layernorm.weight").done();
    let r: Outcome = c.norm(key.as_str(), hidden);
    if !r.passed() { return r; }
    let mlp: String = text(prefix.as_str()).lit(".mlp").done();
    validate_feed_forward(c, args, mlp.as_str(), layer)
}

/// Rejects a checkpoint whose real tensor shapes disagree with the config, before any of them
/// reaches the engine. The packing of a quantized tensor is the engine's to judge: the outcome asks
/// for each judgement that is not among `answers`.
pub fn validate_weights(weights: &WeightMap, args: &ModelArgs, answers: &PackingAnswers) -> (r: Outcome)
    requires args.sizable(),
    ensures r@ == weights_verdict(checkpoint_view(weights@, answers@, *args), *args),
{
    let hidden: usize = args.hidden_size;
    let c: Checkpoint<'_> = Checkpoint {
        weights,
        answers,
        group_size: args.group_size(),
        bits: args.bits(),
        style: ProjectionStyle::Ling,
    };
    let r: Outcome = c.norm("model.norm.weight", hidden);
    if !r.passed() { return r; }
    let r: Outcome = c.packing("model.word_embeddings", hidden);
    if !r.passed() { return r; }
    if !args.tie_word_embeddings {
        let r: Outcome = c.projection("lm_head", args.vocab_size, hidden);
        if !r.passed() { return r; }
    }
    let mut layer: usize = 0;
    while layer < args.num_hidden_layers
        invariant
            layer <= args.num_hidden_layers,
            args.sizable(),
            c@ == checkpoint_view(weights@, answers@, *args),
            weights_verdict(c@, *args) == layers_verdict(c@, *args, layer as nat),
        decreases args.num_hidden_layers - layer,
    {
        let r: Outcome = validate_layer(&c, args, layer);
        if !r.passed() { return r; }
        layer = layer + 1;
    }
    Outcome::Pass
}

proof fn lemma_attention_asks(c: CheckpointView, args: ModelArgs, a: Seq<char>, i: nat)
    ensures asks_soundly(c, attention_verdict(c, args, a, i)),
{
    let h = args.hidden_size as nat;
    let w = args.spec_linear_width();
    lemma_projection_asks(c, a + ".query_key_value"@, args.spec_attention_qkv_out(), h);
    lemma_projection_asks(c, a + ".dense"@, h, (args.num_attention_heads * args.spec_head_dim()) as nat);
    lemma_projection_asks(c, a + ".query_key_value"@, 3 * w, h);
    lemma_projection_asks(c, a + ".dense"@, h, w);
    lemma_projection_asks(c, a + ".g_proj"@, w, h);
}

proof fn lemma_layers_ask(c: CheckpointView, args: ModelArgs, i: nat)
    ensures asks_soundly(c, layers_verdict(c, args, i)),
    decreases args.num_hidden_layers - i,
{
    if i < args.num_hidden_layers {
        let mlp = layer_name(i) + ".mlp"@;
        lemma_layers_ask(c, args, i + 1);
        lemma_attention_asks(c, args, layer_name(i) + ".attention"@, i);
        lemma_mlp_asks(c, mlp, args.hidden_size as nat, args.intermediate_size as nat);
        lemma_sparse_asks(
            c,
            mlp,
            args.spec_experts(),
            args.hidden_size as nat,
            args.spec_moe_width(),
            args.moe_router_enable_expert_bias,
            if args.spec_has_shared() { Some(args.spec_shared_width()) } else { None },
        );
        assert(asks_soundly(c, feed_forward_verdict(c, args, mlp, i)));
    }
}

/// The engine is only ever asked about a quantized tensor that it has not judged yet, and is handed
/// that tensor's own shapes.
pub proof fn questions_are_new(weights: Map<Seq<char>, Seq<i32>>, answers: Map<Seq<char>, Option<Seq<char>>>, args: ModelArgs)
    ensures
        asks_soundly(
            checkpoint_view(weights, answers, args),
            weights_verdict(checkpoint_view(weights, answers, args), args),
        ),
{
    lemma_layers_ask(checkpoint_view(weights, answers, args), args, 0);
}

proof fn lemma_layer_passes(c: CheckpointView, args: ModelArgs, from: nat, i: nat)
    requires
        layers_verdict(c, args, from) is Pass,
        from <= i < args.num_hidden_layers,
    ensures layer_verdict(c, args, i) is Pass,
    decreases i - from,
{
    if from < i {
        lemma_layer_passes(c, args, from + 1, i);
    }
}

/// In a checkpoint that passes, every sparse layer holds every expert that its router can emit.
pub proof fn passing_experts_are_complete(c: CheckpointView, args: ModelArgs, i: nat, e: nat)
    requires
        weights_verdict(c, args) is Pass,
        i < args.num_hidden_layers,
        args.sparse(i as int),
        e < args.spec_experts(),
    ensures
        has_expert(c, layer_name(i) + ".mlp"@, "gate_proj"@, e, args.spec_moe_width()),
        has_expert(c, layer_name(i) + ".mlp"@, "up_proj"@, e, args.spec_moe_width()),
        has_expert(c, layer_name(i) + ".mlp"@, "down_proj"@, e, args.hidden_size as nat),
{
    lemma_layer_passes(c, args, 0, i);
    lemma_sparse_complete(
        c,
        layer_name(i) + ".mlp"@,
        args.spec_experts(),
        args.hidden_size as nat,
        args.spec_moe_width(),
        args.moe_router_enable_expert_bias,
        if args.spec_has_shared() { Some(args.spec_shared_width()) } else { None },
        e,
    );
}

/// In a checkpoint that passes, a linear layer carries its own fused width and gate, and a
/// full-attention layer its own: neither may carry the other's.
pub proof fn passing_attention_has_its_own_width(c: CheckpointView, args: ModelArgs, i: nat)
    requires
        weights_verdict(c, args) is Pass,
        i < args.num_hidden_layers,
    ensures
        ({
            let a = layer_name(i) + ".attention"@;
            if args.global(i as int) {
                c.weights[a + ".query_key_value"@ + ".weight"@][0] == args.spec_attention_qkv_out()
            } else {
                &&& c.weights[a + ".query_key_value"@ + ".weight"@][0] == 3 * args.spec_linear_width()
                &&& c.weights.contains_key(a + ".g_proj"@ + ".weight"@)
                &&& c.weights[a + ".g_norm.weight"@].len() == 1
                &&& c.weights[a + ".g_norm.weight"@][0] == args.spec_linear_width()
            }
        }),
{
    lemma_layer_passes(c, args, 0, i);
}

/// Whether the chunked prefill stays on: any setting but an explicit off leaves it on.
pub open spec fn chunked_prefill_setting(value: Option<Seq<char>>) -> bool {
    match value {
        None => true,
        Some(v) => {
            let t = lower(trim(v));
            t != "0"@ && t != "false"@ && t != "off"@ && t != "no"@
        },
    }
}

/// Whether the chunked prefill is on, given the setting from the environment.
pub fn chunked_prefill_enabled_from(value: Option<&str>) -> (r: bool)
    ensures
        r == chunked_prefill_setting(match value {
            Some(v) => Some(v@),
            None => None,
        }),
{
    match value {
        None => true,
        Some(v) => {
            let t: String = ascii_lowercase(trimmed(v));
            let t: &str = t.as_str();
            !(same(t, "0") || same(t, "false") || same(t, "off") || same(t, "no"))
        },
    }
}

/// `p` is the largest power of two within `n`.
pub open spec fn largest_power(n: nat, p: nat) -> bool {
    p <= n < 2 * p && exists|k: nat| p == #[trigger] pow2(k)
}

/// How many of the ALiBi slopes of `n` heads come from the geometric series of the largest power of
/// two within `n`, and how many from every second member of the next series.
pub fn slope_counts(n: usize) -> (r: (usize, usize))
    ensures
        n == 0 ==> r == (0usize, 0usize),
        n > 0 ==> largest_power(n as nat, r.0 as nat) && r.1 == n - r.0,
{
    if n == 0 {
        return (0, 0);
    }
    let mut p: usize = 1;
    let ghost mut k: nat = 0;
    proof { lemma2_to64(); }
    while p <= n / 2
        invariant
            1 <= p <= n,
            p == pow2(k),
        decreases n - p,
    {
        proof {
            lemma2_to64();
            lemma_pow2_adds(1, k);
            k = k + 1;
        }
        p = p * 2;
    }
    (p, n - p)
}

/// The largest power of two within `n`.
pub open spec fn leading_power(n: nat) -> nat
    decreases n,
{
    if n < 2 { 1 } else { 2 * leading_power(n / 2) }
}

proof fn lemma_leading_power(n: nat, p: nat)
    requires largest_power(n, p),
    ensures p == leading_power(n),
    decreases n,
{
    lemma2_to64();
    let k = choose|k: nat| p == #[trigger] pow2(k);
    if k > 0 {
        lemma_pow2_adds(1, (k - 1) as nat);
        if k > 1 {
            lemma_pow2_adds(1, (k - 2) as nat);
        }
    }
    if n >= 2 {
        assert(k > 0);
        assert(largest_power(n / 2, pow2((k - 1) as nat)));
        lemma_leading_power(n / 2, pow2((k - 1) as nat));
    } else {
        lemma_pow2_pos(k);
    }
}

/// Where the ALiBi slope of a head comes from: member `index` of the geometric series over `series`
/// heads.
#[derive(Clone, Copy, Debug, PartialEq, Eq, Structural)]
pub struct Slope {
    pub series: usize,
    pub index: usize,
}

/// The slope of head `i`, where the series over `p` heads leads: its own member, or every other
/// member of the next series once that is used up.
pub open spec fn slope_of(p: nat, i: int) -> Slope {
    if i < p {
        Slope { series: p as usize, index: i as usize }
    } else {
        Slope { series: (2 * p) as usize, index: (2 * (i - p)) as usize }
    }
}

/// The slopes of `n` heads.
pub open spec fn slopes(n: nat) -> Seq<Slope> {
    Seq::new(n, |i: int| slope_of(leading_power(n), i))
}

/// The ALiBi slope schedule for `n` heads.
pub fn alibi_slopes(n: usize) -> (r: Vec<Slope>)
    requires n <= usize::MAX / 2,
    ensures r@ == slopes(n as nat),
{
    let (p, rest): (usize, usize) = slope_counts(n);
    let mut r: Vec<Slope> = Vec::new();
    proof {
        if n > 0 {
            lemma_leading_power(n as nat, p as nat);
        }
    }
    let mut i: usize = 0;
    while i < p
        invariant
            i <= p <= n,
            n > 0 ==> p == leading_power(n as nat),
            r@ =~= slopes(n as nat).subrange(0, i as int),
        decreases p - i,
    {
        r.push(Slope { series: p, index: i });
        i = i + 1;
    }
    let mut j: usize = 0;
    while j < rest
        invariant
            j <= rest,
            p + rest == n,
            n <= usize::MAX / 2,
            n > 0 ==> n < 2 * p && p == leading_power(n as nat),
            r@ =~= slopes(n as nat).subrange(0, p + j),
        decreases rest - j,
    {
        r.push(Slope { series: 2 * p, index: 2 * j });
        j = j + 1;
    }
    assert(r@ =~= slopes(n as nat));
    r
}

/// The schedule of a head count that is no power of two starts with the schedule of the largest
/// power of two below it, and goes on with every other slope of the doubled schedule.
pub proof fn slopes_fall_back_to_powers_of_two(n: nat, p: nat)
    requires largest_power(n, p),
    ensures
        slopes(n).subrange(0, p as int) == slopes(p),
        forall|k: int| 0 <= k < n - p ==> #[trigger] slopes(n)[p + k] == slopes(2 * p)[2 * k],
{
    lemma_leading_power(n, p);
    let k = choose|k: nat| p == #[trigger] pow2(k);
    lemma2_to64();
    lemma_pow2_pos(k);
    lemma_pow2_adds(1, k);
    assert(largest_power(p, p));
    assert(largest_power(2 * p, pow2(k + 1)));
    lemma_leading_power(p, p);
    lemma_leading_power(2 * p, 2 * p);
    assert(slopes(n).subrange(0, p as int) =~= slopes(p));
}

/// The position of a layer and the number of steps in the stack that its decay is scaled by.
pub open spec fn spec_decay_position(layer_idx: int, num_hidden_layers: int) -> (int, int) {
    (
        if layer_idx > 0 { layer_idx - 1 } else { 0 },
        if num_hidden_layers > 2 { num_hidden_layers - 1 } else { 1 },
    )
}

/// The position of a layer and the number of steps in the stack that its decay is scaled by.
pub fn decay_position(layer_idx: usize, num_hidden_layers: usize) -> (r: (usize, usize))
    ensures
        (r.0 as int, r.1 as int) == spec_decay_position(layer_idx as int, num_hidden_layers as int),
{
    let denom: usize = if num_hidden_layers > 2 { num_hidden_layers - 1 } else { 1 };
    (layer_idx.saturating_sub(1), denom)
}

/// The decay of a head weakens with depth and never vanishes. Each layer has the slopes of all its
/// heads, scaled by one minus its position over the steps of the stack: from a layer to the next the
/// slopes and the steps stay, the position does not fall, and it stays below the steps. The first two
/// layers have the same position.
pub proof fn decay_weakens_with_depth(num_heads: nat, layer_idx: int, num_hidden_layers: int)
    requires
        0 <= layer_idx,
        layer_idx + 1 < num_hidden_layers,
    ensures
        ({
            let a = spec_decay_position(layer_idx, num_hidden_layers);
            let b = spec_decay_position(layer_idx + 1, num_hidden_layers);
            &&& slopes(num_heads).len() == num_heads
            &&& a.1 == b.1
            &&& 0 <= a.0 <= b.0 < b.1
            &&& layer_idx == 0 ==> a == b
            &&& layer_idx > 0 ==> a.0 < b.0
        }),
{
}

/// One chunk of a chunked prefill.
#[derive(Clone, Copy, Debug)]
pub struct ChunkPlan {
    pub start: i32,
    pub len: i32,
    /// Whether a state comes in from before the chunk.
    pub carry: bool,
}

/// Chunk number `i`.
pub open spec fn chunk_at(total: int, chunk: int, has_state: bool, i: int) -> ChunkPlan {
    let start = i * chunk;
    ChunkPlan {
        start: start as i32,
        len: (if chunk < total - start { chunk } else { total - start }) as i32,
        carry: has_state || i > 0,
    }
}

/// Number of chunks: `total / chunk`, rounded up.
pub open spec fn chunk_count(total: int, chunk: int) -> int {
    (total + chunk - 1) / chunk
}

/// An arithmetic range: `first`, `first + step` and so on, short of `stop`.
#[derive(Clone, Copy, Debug)]
pub struct StepRange {
    pub first: i32,
    pub stop: i32,
    pub step: i32,
}

impl StepRange {
    /// Member `k`.
    pub open spec fn at(&self, k: int) -> int {
        self.first + k * self.step
    }
}

impl ChunkPlan {
    pub open spec fn spec_positions(&self) -> StepRange {
        StepRange { first: 0, stop: self.len, step: 1 }
    }

    pub open spec fn spec_carry_steps(&self) -> StepRange {
        StepRange { first: 1, stop: (self.len + 1) as i32, step: 1 }
    }

    pub open spec fn spec_tail_steps(&self) -> StepRange {
        StepRange { first: (self.len - 1) as i32, stop: -1i32, step: -1i32 }
    }

    /// Positions of the tokens in the chunk. A query at `i` decays a key at `j <= i` by the
    /// difference of their positions.
    pub fn positions(&self) -> (r: StepRange)
        ensures r == self.spec_positions(),
    {
        StepRange { first: 0, stop: self.len, step: 1 }
    }

    /// Steps by which each token of the chunk decays the incoming state.
    pub fn carry_steps(&self) -> (r: StepRange)
        requires self.len < i32::MAX,
        ensures r == self.spec_carry_steps(),
    {
        StepRange { first: 1, stop: self.len + 1, step: 1 }
    }

    /// Steps by which each token of the chunk has decayed at the end of it.
    pub fn tail_steps(&self) -> (r: StepRange)
        requires self.len > i32::MIN,
        ensures r == self.spec_tail_steps(),
    {
        StepRange { first: self.len - 1, stop: -1, step: -1 }
    }
}

/// The chunks of a prefill of `total` tokens, in order.
pub fn gla_chunked(total: i32, chunk: i32, has_state: bool) -> (r: Vec<ChunkPlan>)
    requires
        total >= 1,
        chunk >= 1,
    ensures
        r@.len() == chunk_count(total as int, chunk as int),
        forall|i: int| 0 <= i < r@.len() ==> #[trigger] r@[i] == chunk_at(total as int, chunk as int, has_state, i),
{
    let mut r: Vec<ChunkPlan> = Vec::new();
    let mut start: i32 = 0;
    assert(0 * (chunk as int) == 0);
    while start < total
        invariant
            total >= 1,
            chunk >= 1,
            start >= 0,
            start == r@.len() * chunk || (start == total && (r@.len() - 1) * chunk < total <= r@.len() * chunk),
            start <= total,
            r@.len() > 0 ==> (r@.len() - 1) * chunk < total,
            forall|i: int| 0 <= i < r@.len() ==> #[trigger] r@[i] == chunk_at(total as int, chunk as int, has_state, i),
        decreases total - start,
    {
        let len: i32 = if chunk < total - start { chunk } else { total - start };
        let ghost n = r@.len() as int;
        proof {
            assert(start == n * chunk);
            assert((n + 1) * chunk == n * chunk + chunk) by (nonlinear_arith);
        }
        let carry: bool = has_state || r.len() > 0;
        r.push(ChunkPlan { start, len, carry });
        start = start + len;
    }
    proof {
        let n = r@.len() as int;
        let c = chunk as int;
        let t = total as int;
        assert((n - 1) * c == n * c - c) by (nonlinear_arith);
        assert(n * c >= t);
        vstd::arithmetic::div_mod::lemma_fundamental_div_mod_converse(t + c - 1, c, n, t + c - 1 - n * c);
        assert(c * n == n * c) by (nonlinear_arith);
    }
    r
}

/// The token ranges of a token-by-token recurrence over `len` tokens: each token by itself, in order.
pub open spec fn token_ranges(len: nat) -> Seq<(i32, i32)> {
    Seq::new(len, |t: int| (t as i32, (t + 1) as i32))
}

/// The token ranges of a token-by-token recurrence over `len` tokens.
pub fn gla_sequential(len: i32) -> (r: Vec<(i32, i32)>)
    requires 0 <= len,
    ensures r@ == token_ranges(len as nat),
{
    let mut r: Vec<(i32, i32)> = Vec::new();
    let mut t: i32 = 0;
    while t < len
        invariant
            0 <= t <= len,
            r@ =~= token_ranges(t as nat),
        decreases len - t,
    {
        r.push((t, t + 1));
        t = t + 1;
    }
    r
}

/// The chunks lie end to end from zero to `total`: each begins where the one before it stopped, and
/// none is empty.
pub proof fn chunks_partition_the_prefill(total: int, chunk: int, has_state: bool, i: int)
    requires
        1 <= total <= i32::MAX,
        1 <= chunk <= i32::MAX,
        0 <= i < chunk_count(total, chunk),
    ensures
        ({
            let c = chunk_at(total, chunk, has_state, i);
            &&& 1 <= c.len <= chunk
            &&& c.start == i * chunk
            &&& c.start + c.len <= total
            &&& i + 1 == chunk_count(total, chunk) ==> c.start + c.len == total
            &&& i + 1 < chunk_count(total, chunk) ==> c.start + c.len
                == chunk_at(total, chunk, has_state, i + 1).start
        }),
{
    let n = chunk_count(total, chunk);
    vstd::arithmetic::div_mod::lemma_fundamental_div_mod(total + chunk - 1, chunk);
    assert(i * chunk <= (n - 1) * chunk) by (nonlinear_arith) requires i <= n - 1, chunk >= 1;
    assert((n - 1) * chunk == chunk * n - chunk) by (nonlinear_arith);
    assert(i * chunk >= 0) by (nonlinear_arith) requires i >= 0, chunk >= 1;
    assert((i + 1) * chunk == i * chunk + chunk) by (nonlinear_arith);
    if i + 1 < n {
        assert((i + 1) * chunk <= (n - 1) * chunk) by (nonlinear_arith) requires i + 1 <= n - 1, chunk >= 1;
    }
}

/// Steps by which the key at relative position `k` of chunk `a` has decayed when chunk `b` begins, or,
/// where `b` is the number of chunks, when the last one is done.
pub open spec fn carried_decay(total: int, chunk: int, a: int, k: int, b: int) -> int
    decreases b - a,
{
    if b <= a + 1 {
        chunk_at(total, chunk, true, a).spec_tail_steps().at(k)
    } else {
        carried_decay(total, chunk, a, k, b - 1) + chunk_at(total, chunk, true, b - 1).len
    }
}

/// Steps by which the state that came in has decayed when chunk `b` begins, or, where `b` is the
/// number of chunks, when the last one is done.
pub open spec fn incoming_decay(total: int, chunk: int, b: int) -> int
    decreases b,
{
    if b <= 0 { 0 } else { incoming_decay(total, chunk, b - 1) + chunk_at(total, chunk, true, b - 1).len }
}

/// Tokens before chunk `b`, or all of them where `b` is the number of chunks.
pub open spec fn tokens_before(total: int, chunk: int, b: int) -> int {
    if b < chunk_count(total, chunk) { chunk_at(total, chunk, true, b).start as int } else { total }
}

proof fn lemma_carried_decay(total: int, chunk: int, a: int, k: int, b: int)
    requires
        1 <= total <= i32::MAX,
        1 <= chunk <= i32::MAX,
        0 <= a < b <= chunk_count(total, chunk),
    ensures
        carried_decay(total, chunk, a, k, b)
            == tokens_before(total, chunk, b) - 1 - (chunk_at(total, chunk, true, a).start + k),
    decreases b - a,
{
    chunks_partition_the_prefill(total, chunk, true, a);
    chunks_partition_the_prefill(total, chunk, true, b - 1);
    assert(k * -1 == -k) by (nonlinear_arith);
    if b > a + 1 {
        lemma_carried_decay(total, chunk, a, k, b - 1);
    }
}

proof fn lemma_incoming_decay(total: int, chunk: int, b: int)
    requires
        1 <= total <= i32::MAX,
        1 <= chunk <= i32::MAX,
        0 <= b <= chunk_count(total, chunk),
    ensures incoming_decay(total, chunk, b) == tokens_before(total, chunk, b),
    decreases b,
{
    if b > 0 {
        lemma_incoming_decay(total, chunk, b - 1);
        chunks_partition_the_prefill(total, chunk, true, b - 1);
    } else {
        lemma_some_chunk(total, chunk);
        assert(0 * chunk == 0);
    }
}

proof fn lemma_some_chunk(total: int, chunk: int)
    requires
        1 <= total,
        1 <= chunk,
    ensures chunk_count(total, chunk) >= 1,
{
    vstd::arithmetic::div_mod::lemma_div_is_ordered(chunk, total + chunk - 1, chunk);
    vstd::arithmetic::div_mod::lemma_div_by_self(chunk);
}

/// A chunked prefill decays every key exactly as the token-by-token recurrence does: by the distance
/// between query and key. Within a chunk that is the difference of the two positions; across chunks
/// it is the tail decay of the key's chunk, the spans of the chunks between, and the carry decay of
/// the query's chunk.
pub proof fn chunked_decay_is_the_distance(total: int, chunk: int, a: int, k: int, b: int, q: int)
    requires
        1 <= total <= i32::MAX,
        1 <= chunk <= i32::MAX,
        0 <= a <= b < chunk_count(total, chunk),
        0 <= k < chunk_at(total, chunk, true, a).len,
        0 <= q < chunk_at(total, chunk, true, b).len,
        a == b ==> k <= q,
    ensures
        ({
            let c = chunk_at(total, chunk, true, b);
            let decay = if a == b {
                c.spec_positions().at(q) - c.spec_positions().at(k)
            } else {
                carried_decay(total, chunk, a, k, b) + c.spec_carry_steps().at(q)
            };
            decay == (c.start + q) - (chunk_at(total, chunk, true, a).start + k)
        }),
{
    assert(q * 1 == q && k * 1 == k);
    if a < b {
        lemma_carried_decay(total, chunk, a, k, b);
    }
}

/// A chunked prefill decays the state that came in exactly as the token-by-token recurrence does: by
/// one step for each token up to and with the query, and by one for every token at the end.
pub proof fn chunked_decay_of_the_incoming_state(total: int, chunk: int, b: int, q: int)
    requires
        1 <= total <= i32::MAX,
        1 <= chunk <= i32::MAX,
        0 <= b < chunk_count(total, chunk),
        0 <= q < chunk_at(total, chunk, true, b).len,
    ensures
        incoming_decay(total, chunk, b) + chunk_at(total, chunk, true, b).spec_carry_steps().at(q)
            == chunk_at(total, chunk, true, b).start + q + 1,
        incoming_decay(total, chunk, chunk_count(total, chunk)) == total,
{
    assert(q * 1 == q);
    lemma_incoming_decay(total, chunk, b);
    lemma_incoming_decay(total, chunk, chunk_count(total, chunk));
}

/// In the state that a chunked prefill leaves, every key has decayed by the number of tokens behind
/// it.
pub proof fn chunked_decay_in_the_final_state(total: int, chunk: int, a: int, k: int)
    requires
        1 <= total <= i32::MAX,
        1 <= chunk <= i32::MAX,
        0 <= a < chunk_count(total, chunk),
        0 <= k < chunk_at(total, chunk, true, a).len,
    ensures
        carried_decay(total, chunk, a, k, chunk_count(total, chunk))
            == total - 1 - (chunk_at(total, chunk, true, a).start + k),
{
    lemma_carried_decay(total, chunk, a, k, chunk_count(total, chunk));
}

/// A state decayed by `steps` more steps. A state is written as the steps by which each of its terms
/// has decayed, oldest term first; one that is not there has no terms.
pub open spec fn faded(h: Seq<int>, steps: int) -> Seq<int> {
    Seq::new(h.len(), |j: int| h[j] + steps)
}

/// The state after `t` tokens of the token-by-token recurrence: each token decays every term by one
/// step and adds a term of its own. Token `i` reads the state after `i + 1` tokens.
pub open spec fn after_tokens(h: Seq<int>, t: nat) -> Seq<int>
    decreases t,
{
    if t == 0 { h } else { faded(after_tokens(h, (t - 1) as nat), 1).push(0) }
}

impl ChunkPlan {
    /// What the token at position `q` of the chunk reads, where the chunk begins with the state `h`:
    /// that state, decayed by its carry steps, and the keys of the chunk up to and with `q`, each
    /// decayed by the difference of the positions.
    pub open spec fn read_at(&self, h: Seq<int>, q: int) -> Seq<int> {
        let carried = if self.carry { faded(h, self.spec_carry_steps().at(q)) } else { Seq::empty() };
        carried + Seq::new((q + 1) as nat, |j: int| self.spec_positions().at(q) - self.spec_positions().at(j))
    }

    /// The state behind the chunk, where it begins with the state `h`.
    pub open spec fn state_behind(&self, h: Seq<int>) -> Seq<int> {
        faded(h, self.len as int) + Seq::new(self.len as nat, |k: int| self.spec_tail_steps().at(k))
    }
}

/// The state before chunk `b` of a prefill that begins with the state `h`, or behind the last one
/// where `b` is the number of chunks.
pub open spec fn chunked_state(total: int, chunk: int, has_state: bool, h: Seq<int>, b: nat) -> Seq<int>
    decreases b,
{
    if b == 0 {
        h
    } else {
        chunk_at(total, chunk, has_state, b - 1).state_behind(chunked_state(total, chunk, has_state, h, (b - 1) as nat))
    }
}

/// The recurrence in closed form: behind `t` tokens the terms of the state that came in have decayed
/// by `t` more steps, and the term of token `p` by the number of tokens behind it.
pub proof fn recurrence_in_closed_form(h: Seq<int>, t: nat)
    ensures
        after_tokens(h, t) == faded(h, t as int) + Seq::new(t, |p: int| t - 1 - p),
    decreases t,
{
    if t > 0 {
        recurrence_in_closed_form(h, (t - 1) as nat);
    }
    assert(after_tokens(h, t) =~= faded(h, t as int) + Seq::new(t, |p: int| t - 1 - p));
}

proof fn lemma_chunked_state(total: int, chunk: int, has_state: bool, h: Seq<int>, b: nat)
    requires
        1 <= total <= i32::MAX,
        1 <= chunk <= i32::MAX,
        b <= chunk_count(total, chunk),
    ensures
        tokens_before(total, chunk, b as int) >= 0,
        chunked_state(total, chunk, has_state, h, b) == after_tokens(h, tokens_before(total, chunk, b as int) as nat),
    decreases b,
{
    if b == 0 {
        lemma_some_chunk(total, chunk);
        assert(0 * chunk == 0);
    } else {
        let before = (b - 1) as nat;
        lemma_chunked_state(total, chunk, has_state, h, before);
        chunks_partition_the_prefill(total, chunk, true, before as int);
        let c = chunk_at(total, chunk, has_state, before as int);
        let s = tokens_before(total, chunk, before as int);
        let t = tokens_before(total, chunk, b as int);
        assert(t == s + c.len);
        recurrence_in_closed_form(h, s as nat);
        recurrence_in_closed_form(h, t as nat);
        assert forall|k: int| 0 <= k < c.len implies #[trigger] c.spec_tail_steps().at(k) == c.len - 1 - k by {
            assert(k * -1 == -k) by (nonlinear_arith);
        }
        assert(c.state_behind(after_tokens(h, s as nat)) =~= after_tokens(h, t as nat));
    }
}

/// A chunked prefill computes the token-by-token recurrence, whatever the length of a chunk: every
/// token reads, term for term, the state that the recurrence has behind that token, and the state
/// behind the last chunk is the state behind the last token. A state that is handed over enters
/// both alike.
pub proof fn chunked_prefill_is_the_recurrence(
    total: int,
    chunk: int,
    has_state: bool,
    h: Seq<int>,
    b: nat,
    q: int,
)
    requires
        1 <= total <= i32::MAX,
        1 <= chunk <= i32::MAX,
        has_state || h.len() == 0,
        b < chunk_count(total, chunk),
        0 <= q < chunk_at(total, chunk, has_state, b as int).len,
    ensures
        ({
            let c = chunk_at(total, chunk, has_state, b as int);
            c.read_at(chunked_state(total, chunk, has_state, h, b), q) == after_tokens(h, (c.start + q + 1) as nat)
        }),
        chunked_state(total, chunk, has_state, h, chunk_count(total, chunk) as nat) == after_tokens(h, total as nat),
{
    let c = chunk_at(total, chunk, has_state, b as int);
    let s = tokens_before(total, chunk, b as int) as nat;
    lemma_chunked_state(total, chunk, has_state, h, b);
    lemma_chunked_state(total, chunk, has_state, h, chunk_count(total, chunk) as nat);
    chunks_partition_the_prefill(total, chunk, has_state, b as int);
    recurrence_in_closed_form(h, s);
    recurrence_in_closed_form(h, (s + q + 1) as nat);
    if b == 0 {
        assert(0 * chunk == 0);
        assert(after_tokens(h, s) == h);
    }
    assert(c.spec_carry_steps().at(q) == q + 1) by {
        assert(q * 1 == q);
    }
    assert forall|j: int| #[trigger] c.spec_positions().at(j) == j by {
        assert(j * 1 == j);
    }
    let own = Seq::new((q + 1) as nat, |j: int| c.spec_positions().at(q) - c.spec_positions().at(j));
    let carried = if c.carry { faded(after_tokens(h, s), q + 1) } else { Seq::empty() };
    assert(own =~= Seq::new((q + 1) as nat, |j: int| q - j));
    assert(c.read_at(after_tokens(h, s), q) == carried + own);
    assert(carried + own =~= after_tokens(h, (s + q + 1) as nat));
}

/// A token-by-token run may be cut anywhere and resumed from the state it left: the ranges of the
/// whole run are those of the first part, then those of the second shifted behind it, and every
/// token of the second part reads the state that it reads in the whole run.
pub proof fn recurrence_may_be_cut_and_resumed(h: Seq<int>, t1: nat, t2: nat, t: nat)
    requires
        t1 + t2 <= i32::MAX,
        t <= t2,
    ensures
        token_ranges(t1 + t2) == token_ranges(t1) + Seq::new(
            t2,
            |i: int| ((token_ranges(t2)[i].0 + t1) as i32, (token_ranges(t2)[i].1 + t1) as i32),
        ),
        after_tokens(h, t1 + t) == after_tokens(after_tokens(h, t1), t),
    decreases t,
{
    assert(token_ranges(t1 + t2) =~= token_ranges(t1) + Seq::new(
        t2,
        |i: int| ((token_ranges(t2)[i].0 + t1) as i32, (token_ranges(t2)[i].1 + t1) as i32),
    ));
    if t > 0 {
        recurrence_may_be_cut_and_resumed(h, t1, t2, (t - 1) as nat);
    }
}

proof fn lemma_mod_of_negated(a: int, g: int)
    requires g > 0,
    ensures
        a % g == 0 <==> (-a) % g == 0,
        a % g == 0 ==> (-a) / g == -(a / g),
{
    vstd::arithmetic::div_mod::lemma_fundamental_div_mod(a, g);
    vstd::arithmetic::div_mod::lemma_fundamental_div_mod(-a, g);
    if a % g == 0 {
        let q = a / g;
        assert(-a == g * (-q)) by (nonlinear_arith) requires a == g * q;
        assert(g * (-q) == (-q) * g) by (nonlinear_arith);
        vstd::arithmetic::div_mod::lemma_fundamental_div_mod_converse(-a, g, -q, 0);
    }
    if (-a) % g == 0 {
        let q = (-a) / g;
        assert(a == g * (-q)) by (nonlinear_arith) requires -a == g * q;
        assert(g * (-q) == (-q) * g) by (nonlinear_arith);
        vstd::arithmetic::div_mod::lemma_fundamental_div_mod_converse(a, g, -q, 0);
    }
}

/// The output normalizer of the linear path: root-mean-square within each of `groups` groups.
#[derive(Clone, Debug)]
pub struct GroupRMSNorm {
    pub width: i32,
    pub groups: i32,
    pub per_group: i32,
    pub eps: Single,
}

impl GroupRMSNorm {
    /// The normalizer over a weight of the given shape: one axis, which the groups divide.
    pub fn new(weight: &Vec<i32>, groups: i32, eps: &Single) -> (r: Result<Self, String>)
        ensures
            match r {
                Ok(norm) => {
                    &&& weight@.len() == 1
                    &&& groups > 0
                    &&& weight@[0] as int % groups as int == 0
                    &&& norm.width == weight@[0]
                    &&& norm.groups == groups
                    &&& norm.per_group == weight@[0] as int / groups as int
                    &&& norm.eps.is_copy_of(*eps)
                },
                Err(e) => if weight@.len() != 1 {
                    e@ == "GroupRMSNorm weight shape "@ + shape_text(weight@) + ": expected a 1-D vector"@
                } else {
                    &&& groups <= 0 || weight@[0] as int % groups as int != 0
                    &&& e@ == "GroupRMSNorm width "@ + dec_int(weight@[0] as int) + " is not divisible by groups "@
                        + dec_int(groups as int)
                },
            },
    {
        if weight.len() != 1 {
            return Err(
                text("GroupRMSNorm weight shape ").shape(weight).lit(": expected a 1-D vector").done(),
            );
        }
        let width: i32 = weight[0];
        proof {
            if width < 0 && groups > 0 {
                lemma_mod_of_negated(-(width as int), groups as int);
            }
        }
        if groups <= 0 || width % groups != 0 {
            return Err(
                text("GroupRMSNorm width ").whole(width).lit(" is not divisible by groups ").whole(
                    groups,
                ).done(),
            );
        }
        Ok(GroupRMSNorm { width, groups, per_group: width / groups, eps: eps.copy() })
    }

    /// The grouped form of a shape: the last axis split in `groups` parts of equal length.
    pub fn forward(&self, shape: &Vec<i32>) -> (r: Vec<i32>)
        requires
            shape@.len() >= 1,
            shape@.last() >= 0,
            self.groups > 0,
        ensures
            r@ == shape@.drop_last().push(self.groups).push((shape@.last() as int / self.groups as int) as i32),
    {
        let n: usize = shape.len();
        let per_group: i32 = shape[n - 1] / self.groups;
        let mut r: Vec<i32> = Vec::new();
        let mut i: usize = 0;
        while i < n - 1
            invariant
                n == shape@.len(),
                i <= n - 1,
                r@ =~= shape@.subrange(0, i as int),
            decreases n - i,
        {
            r.push(shape[i]);
            i = i + 1;
        }
        assert(r@ =~= shape@.drop_last());
        r.push(self.groups);
        r.push(per_group);
        r
    }
}


/// The cache of a full-attention layer.
#[derive(Clone, Copy, Debug)]
pub struct KvCache<T> {
    pub keys: Option<T>,
    pub values: Option<T>,
    pub offset: i32,
}

impl<T> KvCache<T> {
    /// An empty cache.
    pub fn new() -> (r: Self)
        ensures r == (KvCache::<T> { keys: None, values: None, offset: 0 }),
    {
        KvCache { keys: None, values: None, offset: 0 }
    }
}

/// The cache of a linear-attention layer: the recurrent state, and the position it stands for.
#[derive(Clone, Copy, Debug)]
pub struct LinearAttentionCache<T> {
    pub state: Option<T>,
    pub offset: i32,
}

impl<T> LinearAttentionCache<T> {
    /// A cache that holds no state.
    pub fn new() -> (r: Self)
        ensures r == (LinearAttentionCache::<T> { state: None, offset: 0 }),
    {
        LinearAttentionCache { state: None, offset: 0 }
    }

    /// Takes the state after `length` more tokens.
    pub fn advance(&mut self, state: T, length: i32)
        requires i32::MIN <= old(self).offset + length <= i32::MAX,
        ensures
            final(self).state == Some(state),
            final(self).offset == old(self).offset + length,
    {
        self.state = Some(state);
        self.offset = self.offset + length;
    }
}

/// The cache of one layer.
#[derive(Clone, Copy, Debug)]
pub enum BailingLinearCache<T> {
    Attention(KvCache<T>),
    Linear(LinearAttentionCache<T>),
}

/// A tensor under a name, where there is one.
pub open spec fn put<T>(m: Map<Seq<char>, T>, key: Seq<char>, v: Option<T>) -> Map<Seq<char>, T> {
    match v {
        Some(t) => m.insert(key, t),
        None => m,
    }
}

/// The tensor under a name.
pub open spec fn find<T>(m: Map<Seq<char>, T>, key: Seq<char>) -> Option<T> {
    if m.contains_key(key) { Some(m[key]) } else { None }
}

/// The state of a sequence at some length, taken out of a model.
#[verifier::reject_recursive_types(T)]
pub struct Snapshot<T> {
    family: String,
    token_len: usize,
    tensors: StringHashMap<T>,
}

impl<T> Snapshot<T> {
    /// The family of the model that the snapshot was taken from.
    pub closed spec fn spec_family(&self) -> Seq<char> {
        self.family@
    }

    /// The tokens that the snapshot covers.
    pub closed spec fn spec_token_len(&self) -> usize {
        self.token_len
    }

    /// The tensors by name.
    pub closed spec fn spec_tensors(&self) -> Map<Seq<char>, T> {
        self.tensors@
    }

    /// A snapshot without tensors.
    pub fn new(family: &str, token_len: usize) -> (r: Self)
        ensures
            r.spec_family() == family@,
            r.spec_token_len() == token_len,
            r.spec_tensors() == Map::<Seq<char>, T>::empty(),
    {
        Snapshot { family: family.to_owned(), token_len, tensors: StringHashMap::new() }
    }

    pub fn family(&self) -> (r: &str)
        ensures r@ == self.spec_family(),
    {
        self.family.as_str()
    }

    pub fn token_len(&self) -> (r: usize)
        ensures r == self.spec_token_len(),
    {
        self.token_len
    }

    /// Stores a tensor, where there is one.
    pub fn push_optional(&mut self, key: String, value: Option<T>)
        ensures
            final(self).spec_family() == old(self).spec_family(),
            final(self).spec_token_len() == old(self).spec_token_len(),
            final(self).spec_tensors() == put(old(self).spec_tensors(), key@, value),
    {
        if let Some(t) = value {
            self.tensors.insert(key, t);
        }
    }
}

impl<T: Copy> Snapshot<T> {
    /// The tensor under a name.
    pub fn restore_optional(&self, key: &str) -> (r: Option<T>)
        ensures r == find(self.spec_tensors(), key@),
    {
        match self.tensors.get(key) {
            Some(t) => Some(*t),
            None => None,
        }
    }
}

/// The tensors of one cache, added under `prefix`.
pub open spec fn snapped<T>(m: Map<Seq<char>, T>, cache: BailingLinearCache<T>, prefix: Seq<char>) -> Map<Seq<char>, T> {
    match cache {
        BailingLinearCache::Attention(kv) => put(
            put(m, prefix + ".attention.keys"@, kv.keys),
            prefix + ".attention.values"@,
            kv.values,
        ),
        BailingLinearCache::Linear(linear) => put(m, prefix + ".linear.state"@, linear.state),
    }
}

/// A cache of the same flavour, filled from the tensors under `prefix`.
pub open spec fn restored<T>(
    cache: BailingLinearCache<T>,
    m: Map<Seq<char>, T>,
    token_len: usize,
    prefix: Seq<char>,
) -> BailingLinearCache<T> {
    match cache {
        BailingLinearCache::Attention(_) => BailingLinearCache::Attention(
            KvCache {
                keys: find(m, prefix + ".attention.keys"@),
                values: find(m, prefix + ".attention.values"@),
                offset: token_len as i32,
            },
        ),
        BailingLinearCache::Linear(_) => BailingLinearCache::Linear(
            LinearAttentionCache { state: find(m, prefix + ".linear.state"@), offset: token_len as i32 },
        ),
    }
}

impl<T> BailingLinearCache<T> {
    pub open spec fn spec_offset(&self) -> i32 {
        match self {
            BailingLinearCache::Attention(kv) => kv.offset,
            BailingLinearCache::Linear(linear) => linear.offset,
        }
    }

    /// The position that the cache stands for.
    pub fn offset(&self) -> (r: i32)
        ensures r == self.spec_offset(),
    {
        match self {
            BailingLinearCache::Attention(kv) => kv.offset,
            BailingLinearCache::Linear(linear) => linear.offset,
        }
    }
}

impl<T: Copy> BailingLinearCache<T> {
    /// Adds the cache's tensors to a snapshot.
    pub fn snapshot_into(&self, snapshot: &mut Snapshot<T>, prefix: &str)
        ensures
            final(snapshot).spec_family() == old(snapshot).spec_family(),
            final(snapshot).spec_token_len() == old(snapshot).spec_token_len(),
            final(snapshot).spec_tensors() == snapped(old(snapshot).spec_tensors(), *self, prefix@),
    {
        match self {
            BailingLinearCache::Attention(kv) => {
                snapshot.push_optional(text(prefix).lit(".attention.keys").done(), kv.keys);
                snapshot.push_optional(text(prefix).lit(".attention.values").done(), kv.values);
            },
            BailingLinearCache::Linear(linear) => {
                snapshot.push_optional(text(prefix).lit(".linear.state").done(), linear.state);
            },
        }
    }

    /// Fills the cache from a snapshot.
    pub fn restore_from(&mut self, snapshot: &Snapshot<T>, prefix: &str)
        ensures
            *final(self) == restored(
                *old(self),
                snapshot.spec_tensors(),
                snapshot.spec_token_len(),
                prefix@,
            ),
    {
        let attention: bool = match &*self {
            BailingLinearCache::Attention(_) => true,
            BailingLinearCache::Linear(_) => false,
        };
        let offset: i32 = snapshot.token_len() as i32;
        if attention {
            let k: String = text(prefix).lit(".attention.keys").done();
            let v: String = text(prefix).lit(".attention.values").done();
            *self = BailingLinearCache::Attention(
                KvCache {
                    keys: snapshot.restore_optional(k.as_str()),
                    values: snapshot.restore_optional(v.as_str()),
                    offset,
                },
            );
        } else {
            let s: String = text(prefix).lit(".linear.state").done();
            *self = BailingLinearCache::Linear(
                LinearAttentionCache { state: snapshot.restore_optional(s.as_str()), offset },
            );
        }
    }
}

/// One full-attention block over a fused projection.
#[derive(Debug)]
pub struct Attention {
    /// Whether queries and keys are normalized per head.
    pub qk_norm: bool,
    pub num_heads: i32,
    pub num_kv_heads: i32,
    pub head_dim: i32,
    pub rope_dims: i32,
    pub rope_traditional: bool,
    pub rope_base: Single,
}

impl Attention {
    /// The cut of the fused projection of `[batch, length, hidden]`, the head split, and the
    /// rotation from `offset` on.
    pub fn forward(&self, x: &Vec<i32>, offset: i32) -> (r: (QkvCut, HeadPlan))
        requires
            x@.len() >= 2,
            fused_fits(self.num_heads, self.num_kv_heads, self.head_dim),
        ensures
            r == fused_plan(
                x@,
                self.num_heads,
                self.num_kv_heads,
                self.head_dim,
                Rope { dims: self.rope_dims, traditional: self.rope_traditional, offset },
            ),
    {
        plan_fused(
            x,
            self.num_heads,
            self.num_kv_heads,
            self.head_dim,
            Rope { dims: self.rope_dims, traditional: self.rope_traditional, offset },
        )
    }

    /// The kernel that reads the cached keys.
    pub fn attend(&self, length: i32, has_mask: bool) -> (r: AttendPlan)
        ensures r == causal_unless_masked(length, has_mask, 0),
    {
        attend_causal(length, has_mask, 0)
    }

    /// The block that a config describes.
    pub open spec fn follows(&self, args: ModelArgs) -> bool {
        &&& self.qk_norm == args.use_qk_norm
        &&& self.num_heads == args.num_attention_heads as i32
        &&& self.num_kv_heads == args.spec_kv_heads() as usize as i32
        &&& self.head_dim == args.spec_head_dim() as usize as i32
        &&& self.rope_dims == args.spec_rope_dims()
        &&& self.rope_traditional == args.rope_traditional
        &&& self.rope_base.is_copy_of(args.rope_theta)
    }

    /// The block that a config describes, with its load steps.
    pub fn from_weights(args: &ModelArgs, prefix: &str, steps: &mut Steps) -> (r: Self)
        requires args.num_attention_heads > 0,
        ensures
            r.follows(*args),
            final(steps)@ == attention_steps(old(steps)@, prefix@, args.use_qk_norm),
    {
        load_attention(prefix, args.use_qk_norm, steps);
        Attention {
            qk_norm: args.use_qk_norm,
            num_heads: args.num_attention_heads as i32,
            num_kv_heads: args.num_kv_heads() as i32,
            head_dim: args.head_dim() as i32,
            rope_dims: args.rope_dims(),
            rope_traditional: args.rope_traditional,
            rope_base: args.rope_theta.copy(),
        }
    }
}

/// How a linear block runs its recurrence.
#[derive(Clone, Copy, Debug, PartialEq, Eq, Structural)]
pub enum Recurrence {
    /// Chunk by chunk, with the given number of tokens in each.
    Chunked { chunk: i32 },
    /// Token by token.
    Sequential,
}

/// One linear-attention block: a decaying recurrence in place of a softmax, with a gated and
/// group-normalized output.
#[derive(Debug)]
pub struct LinearAttention {
    /// Whether queries and keys are normalized per head.
    pub qk_norm: bool,
    pub g_norm: GroupRMSNorm,
    pub num_heads: i32,
    pub head_dim: i32,
    pub rope_dims: i32,
    pub rope_traditional: bool,
    pub rope_base: Single,
    /// Position of the layer in the stack, and the steps that scale its decay.
    pub decay_position: (usize, usize),
    pub chunked_prefill: bool,
}

/// The load steps of a linear block.
pub open spec fn linear_steps(s: Seq<StepView>, prefix: Seq<char>, qk_norm: bool) -> Seq<StepView> {
    let s = step(projection_steps(s, prefix), StepKind::Tensor, prefix + ".g_norm.weight"@);
    if qk_norm {
        step(
            step(s, StepKind::Tensor, prefix + ".query_layernorm.weight"@),
            StepKind::Tensor,
            prefix + ".key_layernorm.weight"@,
        )
    } else {
        s
    }
}

/// The load steps of a linear block up to its output norm.
pub open spec fn projection_steps(s: Seq<StepView>, prefix: Seq<char>) -> Seq<StepView> {
    let s = step(s, StepKind::Linear, prefix + ".query_key_value"@);
    let s = step(s, StepKind::Linear, prefix + ".dense"@);
    step(s, StepKind::Linear, prefix + ".g_proj"@)
}

/// What keeps the output norm of a linear block from being laid out: its tensor is missing, has more
/// than one axis, or a width that the groups do not divide.
pub open spec fn output_norm_finding(weights: Map<Seq<char>, Seq<i32>>, args: ModelArgs, prefix: Seq<char>) -> Finding {
    let key = prefix + ".g_norm.weight"@;
    let s = weights[key];
    let g = args.group_norm_size as i32;
    if !weights.contains_key(key) {
        Err(missing_text(key))
    } else if s.len() != 1 {
        Err("GroupRMSNorm weight shape "@ + shape_text(s) + ": expected a 1-D vector"@)
    } else if g <= 0 || s[0] as int % g as int != 0 {
        Err("GroupRMSNorm width "@ + dec_int(s[0] as int) + " is not divisible by groups "@ + dec_int(g as int))
    } else {
        Ok(())
    }
}

impl LinearAttention {
    /// The cut of the fused projection of `[batch, length, hidden]` into even thirds, the head
    /// split and rotation from `offset` on, and the form of the recurrence: chunked for a prompt
    /// unless that is switched off, token by token otherwise.
    pub fn forward(&self, x: &Vec<i32>, offset: i32) -> (r: (QkvCut, HeadPlan, Recurrence))
        requires
            x@.len() >= 2,
            fused_fits(self.num_heads, self.num_heads, self.head_dim),
        ensures
            (r.0, r.1) == fused_plan(
                x@,
                self.num_heads,
                self.num_heads,
                self.head_dim,
                Rope { dims: self.rope_dims, traditional: self.rope_traditional, offset },
            ),
            r.2 == (if x@[1] > 1 && self.chunked_prefill {
                Recurrence::Chunked { chunk: GLA_CHUNK }
            } else {
                Recurrence::Sequential
            }),
    {
        let (cut, heads) = plan_fused(
            x,
            self.num_heads,
            self.num_heads,
            self.head_dim,
            Rope { dims: self.rope_dims, traditional: self.rope_traditional, offset },
        );
        let recurrence: Recurrence = if x[1] > 1 && self.chunked_prefill {
            Recurrence::Chunked { chunk: GLA_CHUNK }
        } else {
            Recurrence::Sequential
        };
        (cut, heads, recurrence)
    }

    /// The block that a config describes at layer `i`.
    pub open spec fn follows(&self, args: ModelArgs, i: int) -> bool {
        &&& self.qk_norm == args.use_qk_norm
        &&& self.g_norm.groups == args.group_norm_size as i32
        &&& self.g_norm.per_group == self.g_norm.width as int / self.g_norm.groups as int
        &&& self.g_norm.eps.is_copy_of(args.rms_norm_eps)
        &&& self.num_heads == args.num_attention_heads as i32
        &&& self.head_dim == args.spec_linear_head_dim() as usize as i32
        &&& self.rope_dims == args.spec_linear_rope_dims()
        &&& self.rope_traditional == args.rope_traditional
        &&& self.rope_base.is_copy_of(args.rope_theta)
        &&& (self.decay_position.0 as int, self.decay_position.1 as int)
            == spec_decay_position(i, args.num_hidden_layers as int)
    }

    /// The block that a config describes, with its load steps. The norm tensor has to be there, with
    /// one axis that the groups divide; where it is not, the steps before it are still added: one of
    /// them that fails ends the load first.
    pub fn from_weights(
        weights: &WeightMap,
        args: &ModelArgs,
        prefix: &str,
        layer_idx: usize,
        chunked_prefill: bool,
        steps: &mut Steps,
    ) -> (r: Result<Self, String>)
        requires args.num_attention_heads > 0,
        ensures
            match r {
                Ok(block) => {
                    &&& output_norm_finding(weights@, *args, prefix@) is Ok
                    &&& block.follows(*args, layer_idx as int)
                    &&& block.g_norm.width == weights@[prefix@ + ".g_norm.weight"@][0]
                    &&& block.chunked_prefill == chunked_prefill
                    &&& final(steps)@ == linear_steps(old(steps)@, prefix@, args.use_qk_norm)
                },
                Err(e) => {
                    &&& output_norm_finding(weights@, *args, prefix@) == Err::<(), Seq<char>>(e@)
                    &&& final(steps)@ == projection_steps(old(steps)@, prefix@)
                },
            },
    {
        steps.push(StepKind::Linear, text(prefix).lit(".query_key_value").done());
        steps.push(StepKind::Linear, text(prefix).lit(".dense").done());
        steps.push(StepKind::Linear, text(prefix).lit(".g_proj").done());
        let key: String = text(prefix).lit(".g_norm.weight").done();
        let g_norm: GroupRMSNorm = match weights.get(key.as_str()) {
            None => {
                return Err(missing(key.as_str()));
            },
            Some(shape) => match GroupRMSNorm::new(shape, args.group_norm_size as i32, &args.rms_norm_eps) {
                Ok(norm) => norm,
                Err(e) => {
                    return Err(e);
                },
            },
        };
        steps.push(StepKind::Tensor, key);
        if args.use_qk_norm {
            steps.push(StepKind::Tensor, text(prefix).lit(".query_layernorm.weight").done());
            steps.push(StepKind::Tensor, text(prefix).lit(".key_layernorm.weight").done());
        }
        Ok(
            LinearAttention {
                qk_norm: args.use_qk_norm,
                g_norm,
                num_heads: args.num_attention_heads as i32,
                head_dim: args.linear_head_dim() as i32,
                rope_dims: args.linear_rope_dims(),
                rope_traditional: args.rope_traditional,
                rope_base: args.rope_theta.copy(),
                decay_position: decay_position(layer_idx, args.num_hidden_layers),
                chunked_prefill,
            },
        )
    }
}

/// The attention of a layer.
#[derive(Debug)]
pub enum AttentionKind {
    Full(Attention),
    Linear(LinearAttention),
}

/// Either the dense prefix MLP or the sparse block, per layer.
#[derive(Debug)]
pub enum FeedForward {
    Dense(BailingMoeMLP),
    Sparse(BailingMoeSparseBlock),
}

impl ModelArgs {
    /// The parameters of the router.
    pub open spec fn gate_args(&self) -> GateArgs<'_> {
        GateArgs {
            num_experts: self.spec_experts() as usize,
            expert_bias: self.moe_router_enable_expert_bias,
            num_experts_per_tok: self.num_experts_per_tok,
            n_group: self.n_group,
            topk_group: self.topk_group,
            routed_scaling_factor: &self.routed_scaling_factor,
            norm_topk_prob: self.norm_topk_prob,
            score_function: self.spec_score_function(),
        }
    }
}

/// The SwiGLU block under `prefix`, with its load steps.
pub fn load_mlp(prefix: &str, steps: &mut Steps) -> (r: BailingMoeMLP)
    ensures final(steps)@ == mlp_steps(old(steps)@, prefix@),
{
    BailingMoeMLP::from_weights(prefix, steps)
}

/// The sparse block of a config, with its load steps.
pub fn load_sparse_block(weights: &WeightMap, args: &ModelArgs, prefix: &str, steps: &mut Steps) -> (r: Result<BailingMoeSparseBlock, String>)
    ensures
        match r {
            Ok(block) => {
                &&& router_key(weights@, prefix@) == Ok::<Seq<char>, Seq<char>>(block.gate.gate_proj@)
                &&& block.gate.follows(args.gate_args())
                &&& block.shared_experts is Some <==> args.spec_has_shared()
                &&& final(steps)@ == sparse_steps(
                    old(steps)@,
                    weights@,
                    prefix@,
                    args.moe_router_enable_expert_bias,
                    args.spec_has_shared(),
                )
            },
            Err(e) => router_key(weights@, prefix@) == Err::<Seq<char>, Seq<char>>(e@)
                && final(steps)@ == old(steps)@,
        },
{
    let g: GateArgs<'_> = GateArgs {
        num_experts: args.num_experts(),
        expert_bias: args.moe_router_enable_expert_bias,
        num_experts_per_tok: args.num_experts_per_tok,
        n_group: args.n_group,
        topk_group: args.topk_group,
        routed_scaling_factor: &args.routed_scaling_factor,
        norm_topk_prob: args.norm_topk_prob,
        score_function: args.score_function(),
    };
    BailingMoeSparseBlock::load(weights, &g, args.has_shared_expert(), prefix, steps)
}

/// One decoder block.
#[derive(Debug)]
pub struct DecoderLayer {
    pub attention: AttentionKind,
    pub mlp: FeedForward,
}

/// The load steps of layer `i`.
pub open spec fn layer_steps(s: Seq<StepView>, weights: Map<Seq<char>, Seq<i32>>, args: ModelArgs, i: nat) -> Seq<StepView> {
    let p = layer_name(i);
    let s = if args.global(i as int) {
        attention_steps(s, p + ".attention"@, args.use_qk_norm)
    } else {
        linear_steps(s, p + ".attention"@, args.use_qk_norm)
    };
    let s = if args.sparse(i as int) {
        sparse_steps(s, weights, p + ".mlp"@, args.moe_router_enable_expert_bias, args.spec_has_shared())
    } else {
        mlp_steps(s, p + ".mlp"@)
    };
    let s = step(s, StepKind::Tensor, p + ".input_layernorm.weight"@);
    step(s, StepKind::Tensor, p + ".post_attention_layernorm.weight"@)
}

/// What a layer and its cache do together.
#[derive(Clone, Copy, Debug, PartialEq, Eq, Structural)]
pub enum Pairing {
    Full,
    Linear,
    /// The flavours differ: the attention branch contributes nothing.
    Mismatch,
}

impl DecoderLayer {
    /// Layer `i` as the config describes it, with its output norm as wide as the block.
    pub open spec fn describes(&self, args: ModelArgs, i: int, chunked_prefill: bool) -> bool {
        &&& self.follows(args, i, chunked_prefill)
        &&& self.attention matches AttentionKind::Linear(a) ==> a.g_norm.width == args.spec_linear_width()
    }

    /// Layer `i` as the config describes it.
    pub open spec fn follows(&self, args: ModelArgs, i: int, chunked_prefill: bool) -> bool {
        &&& self.attention is Full <==> args.global(i)
        &&& self.attention matches AttentionKind::Full(a) ==> a.follows(args)
        &&& self.attention matches AttentionKind::Linear(a) ==> a.follows(args, i) && a.chunked_prefill == chunked_prefill
        &&& self.mlp is Sparse <==> args.sparse(i)
        &&& self.mlp matches FeedForward::Sparse(b) ==> {
            &&& b.gate.follows(args.gate_args())
            &&& b.shared_experts is Some <==> args.spec_has_shared()
        }
    }

    /// Whether the layer has full attention.
    pub fn is_global(&self) -> (r: bool)
        ensures r == (self.attention is Full),
    {
        match &self.attention {
            AttentionKind::Full(_) => true,
            AttentionKind::Linear(_) => false,
        }
    }

    /// How the layer works with a cache.
    pub fn forward<T>(&self, cache: &BailingLinearCache<T>) -> (r: Pairing)
        ensures
            r == (if self.attention is Full && cache is Attention {
                Pairing::Full
            } else if self.attention is Linear && cache is Linear {
                Pairing::Linear
            } else {
                Pairing::Mismatch
            }),
    {
        match &self.attention {
            AttentionKind::Full(_) => match cache {
                BailingLinearCache::Attention(_) => Pairing::Full,
                BailingLinearCache::Linear(_) => Pairing::Mismatch,
            },
            AttentionKind::Linear(_) => match cache {
                BailingLinearCache::Attention(_) => Pairing::Mismatch,
                BailingLinearCache::Linear(_) => Pairing::Linear,
            },
        }
    }

    /// A sparse layer `i` reads its router from where the checkpoint stores it.
    pub open spec fn finds_router(&self, weights: Map<Seq<char>, Seq<i32>>, i: int) -> bool {
        self.mlp matches FeedForward::Sparse(b) ==> router_key(weights, layer_name(i as nat) + ".mlp"@)
            == Ok::<Seq<char>, Seq<char>>(b.gate.gate_proj@)
    }

    /// The load steps of layer `i` up to what keeps it from being laid out.
    pub open spec fn begun_steps(
        s: Seq<StepView>,
        weights: Map<Seq<char>, Seq<i32>>,
        args: ModelArgs,
        i: nat,
    ) -> Seq<StepView> {
        let a = layer_name(i) + ".attention"@;
        if args.global(i as int) {
            attention_steps(s, a, args.use_qk_norm)
        } else if output_norm_finding(weights, args, a) is Ok {
            linear_steps(s, a, args.use_qk_norm)
        } else {
            projection_steps(s, a)
        }
    }

    /// What keeps layer `i` from being laid out: the output norm of a linear block, or a router that
    /// is not there.
    pub open spec fn finding(weights: Map<Seq<char>, Seq<i32>>, args: ModelArgs, i: nat) -> Finding {
        next(
            if args.global(i as int) {
                Ok(())
            } else {
                output_norm_finding(weights, args, layer_name(i) + ".attention"@)
            },
            if args.sparse(i as int) {
                match router_key(weights, layer_name(i) + ".mlp"@) {
                    Ok(_) => Ok(()),
                    Err(e) => Err(e),
                }
            } else {
                Ok(())
            },
        )
    }

    /// The layer that a config describes, with its load steps. Where it cannot be laid out, the steps
    /// up to that point are still added: one of them that fails ends the load first.
    pub fn from_weights(
        weights: &WeightMap,
        args: &ModelArgs,
        layer_idx: usize,
        chunked_prefill: bool,
        steps: &mut Steps,
    ) -> (r: Result<Self, String>)
        requires
            args.num_attention_heads > 0,
            layer_idx < usize::MAX,
        ensures
            match r {
                Ok(layer) => {
                    &&& DecoderLayer::finding(weights@, *args, layer_idx as nat) is Ok
                    &&& layer.follows(*args, layer_idx as int, chunked_prefill)
                    &&& layer.finds_router(weights@, layer_idx as int)
                    &&& layer.attention matches AttentionKind::Linear(a) ==> a.g_norm.width
                        == weights@[layer_name(layer_idx as nat) + ".attention"@ + ".g_norm.weight"@][0]
                    &&& final(steps)@ == layer_steps(old(steps)@, weights@, *args, layer_idx as nat)
                },
                Err(e) => {
                    &&& DecoderLayer::finding(weights@, *args, layer_idx as nat) == Err::<(), Seq<char>>(e@)
                    &&& final(steps)@ == DecoderLayer::begun_steps(old(steps)@, weights@, *args, layer_idx as nat)
                },
            },
    {
        let prefix: String = layer_prefix(layer_idx);
        let attention_key: String = text(prefix.as_str()).lit(".attention").done();
        let mlp_key: String = text(prefix.as_str()).lit(".mlp").done();
        let attention: AttentionKind = if args.is_global_layer(layer_idx) {
            AttentionKind::Full(Attention::from_weights(args, attention_key.as_str(), steps))
        } else {
            match LinearAttention::from_weights(
                weights,
                args,
                attention_key.as_str(),
                layer_idx,
                chunked_prefill,
                steps,
            ) {
                Ok(a) => AttentionKind::Linear(a),
                Err(e) => {
                    return Err(e);
                },
            }
        };
        let mlp: FeedForward = if args.is_moe_layer(layer_idx) {
            match load_sparse_block(weights, args, mlp_key.as_str(), steps) {
                Ok(block) => FeedForward::Sparse(block),
                Err(e) => {
                    return Err(e);
                },
            }
        } else {
            FeedForward::Dense(load_mlp(mlp_key.as_str(), steps))
        };
        steps.push(StepKind::Tensor, text(prefix.as_str()).lit(".input_layernorm.weight").done());
        steps.push(StepKind::Tensor, text(prefix.as_str()).lit(".post_attention_layernorm.weight").done());
        Ok(DecoderLayer { attention, mlp })
    }
}

/// A layer that passed validation can be laid out, and its output norm is as wide as its block.
proof fn lemma_passing_layer_is_laid_out(c: CheckpointView, args: ModelArgs, i: nat)
    requires
        args.usable(),
        layer_verdict(c, args, i) is Pass,
    ensures
        DecoderLayer::finding(c.weights, args, i) is Ok,
        !args.global(i as int) ==> c.weights[layer_name(i) + ".attention"@ + ".g_norm.weight"@]
            == seq![args.spec_linear_width() as i32],
{
    usable_widths_are_small(args);
    if args.group_norm_size > args.spec_linear_width() {
        vstd::arithmetic::div_mod::lemma_small_mod(args.spec_linear_width(), args.group_norm_size as nat);
    }
}

/// The load steps of the first `n` layers, behind the embedding table.
pub open spec fn stack_steps(weights: Map<Seq<char>, Seq<i32>>, args: ModelArgs, n: nat) -> Seq<StepView>
    decreases n,
{
    if n == 0 {
        step(Seq::empty(), StepKind::Embedding, "model.word_embeddings"@)
    } else {
        layer_steps(stack_steps(weights, args, (n - 1) as nat), weights, args, (n - 1) as nat)
    }
}

/// The load steps of a whole model.
pub open spec fn model_steps(weights: Map<Seq<char>, Seq<i32>>, args: ModelArgs) -> Seq<StepView> {
    let s = step(
        stack_steps(weights, args, args.num_hidden_layers as nat),
        StepKind::Tensor,
        "model.norm.weight"@,
    );
    if args.tie_word_embeddings { s } else { s.push(head_step(weights, args.norm_head, "Ling linear MoE"@)) }
}

/// The name of a layer in a snapshot.
pub open spec fn snapshot_name(i: nat) -> Seq<char> {
    "layer"@ + dec(i)
}

/// The tensors of the first `n` caches.
pub open spec fn snapped_all<T>(caches: Seq<BailingLinearCache<T>>, n: nat) -> Map<Seq<char>, T>
    decreases n,
{
    if n == 0 {
        Map::empty()
    } else {
        snapped(snapped_all(caches, (n - 1) as nat), caches[n - 1], snapshot_name((n - 1) as nat))
    }
}

/// Ling linear MoE.
#[derive(Debug)]
pub struct BailingMoeLinearModel {
    pub layers: Vec<DecoderLayer>,
    /// Whether the output projection is the embedding table.
    pub tied: bool,
    pub global_layer_index: Option<usize>,
    pub eos_token_ids: Vec<i32>,
}

impl BailingMoeLinearModel {
    /// An empty cache for each layer, of the layer's flavour.
    pub open spec fn fresh_caches<T>(&self) -> Seq<BailingLinearCache<T>> {
        Seq::new(
            self.layers@.len(),
            |i: int| if self.layers@[i].attention is Full {
                BailingLinearCache::Attention(KvCache { keys: None, values: None, offset: 0 })
            } else {
                BailingLinearCache::Linear(LinearAttentionCache { state: None, offset: 0 })
            },
        )
    }

    /// The cache of the first full-attention layer, where the caches reach that far.
    pub open spec fn global_offset<T>(&self, caches: Seq<BailingLinearCache<T>>) -> Option<i32> {
        match self.global_layer_index {
            Some(i) if i < caches.len() => Some(caches[i as int].spec_offset()),
            _ => None,
        }
    }

    /// The position of a pass: that of the first full-attention layer's cache, else of the first
    /// cache, else zero.
    pub fn forward<T>(&self, caches: &Vec<BailingLinearCache<T>>) -> (r: i32)
        ensures
            r == match self.global_offset(caches@) {
                Some(o) => o,
                None => if caches@.len() > 0 { caches@[0].spec_offset() } else { 0 },
            },
    {
        match self.global_layer_index {
            Some(i) => {
                if i < caches.len() {
                    return caches[i].offset();
                }
            },
            None => {},
        }
        if caches.len() > 0 { caches[0].offset() } else { 0 }
    }

    /// The keys under the causal mask of a pass: none for a single token.
    pub fn prefill_mask<T>(&self, seq_len: i32, caches: &Vec<BailingLinearCache<T>>) -> (r: Option<i32>)
        ensures
            r == (if seq_len > 1 {
                Some(match self.global_offset(caches@) { Some(o) => o, None => 0 })
            } else {
                None
            }),
    {
        if seq_len > 1 {
            match self.global_layer_index {
                Some(i) => {
                    if i < caches.len() {
                        return Some(caches[i].offset());
                    }
                },
                None => {},
            }
            Some(0)
        } else {
            None
        }
    }

    /// Whether a pass starts the model's own sequence afresh: a prompt outside any sequence does.
    pub fn forward_for_sequence(&self, has_sequence_id: bool, seq_len: i32) -> (r: bool)
        ensures r == (!has_sequence_id && seq_len > 1),
    {
        !has_sequence_id && seq_len > 1
    }

    /// The number of layers.
    pub fn num_layers(&self) -> (r: usize)
        ensures r == self.layers@.len(),
    {
        self.layers.len()
    }

    /// An empty cache for each layer, of the layer's flavour.
    pub fn make_internal_caches<T>(&self) -> (r: Vec<BailingLinearCache<T>>)
        ensures r@ == self.fresh_caches::<T>(),
    {
        let mut r: Vec<BailingLinearCache<T>> = Vec::new();
        let mut i: usize = 0;
        while i < self.layers.len()
            invariant
                i <= self.layers@.len(),
                r@ =~= self.fresh_caches::<T>().subrange(0, i as int),
            decreases self.layers@.len() - i,
        {
            if self.layers[i].is_global() {
                r.push(BailingLinearCache::Attention(KvCache::new()));
            } else {
                r.push(BailingLinearCache::Linear(LinearAttentionCache::new()));
            }
            i = i + 1;
        }
        assert(r@ =~= self.fresh_caches::<T>());
        r
    }

    /// A snapshot of a sequence's caches after `token_len` tokens.
    pub fn snapshot_sequence_state<T: Copy>(&self, caches: &Vec<BailingLinearCache<T>>, token_len: usize) -> (r: Snapshot<T>)
        ensures
            r.spec_family() == "bailing_moe_linear"@,
            r.spec_token_len() == token_len,
            r.spec_tensors() == snapped_all(caches@, caches@.len()),
    {
        let mut snapshot: Snapshot<T> = Snapshot::new("bailing_moe_linear", token_len);
        let mut i: usize = 0;
        while i < caches.len()
            invariant
                i <= caches@.len(),
                snapshot.spec_family() == "bailing_moe_linear"@,
                snapshot.spec_token_len() == token_len,
                snapshot.spec_tensors() == snapped_all(caches@, i as nat),
            decreases caches@.len() - i,
        {
            let name: String = text("layer").num(i).done();
            caches[i].snapshot_into(&mut snapshot, name.as_str());
            i = i + 1;
        }
        snapshot
    }

    /// The caches of a sequence, filled from a snapshot of this family.
    pub fn restore_sequence_state<T: Copy>(&self, snapshot: &Snapshot<T>) -> (r: Result<Vec<BailingLinearCache<T>>, String>)
        ensures
            match r {
                Ok(caches) => {
                    &&& snapshot.spec_family() == "bailing_moe_linear"@
                    &&& caches@ == Seq::new(
                        self.layers@.len(),
                        |i: int| restored(
                            self.fresh_caches::<T>()[i],
                            snapshot.spec_tensors(),
                            snapshot.spec_token_len(),
                            snapshot_name(i as nat),
                        ),
                    )
                },
                Err(e) => {
                    &&& snapshot.spec_family() != "bailing_moe_linear"@
                    &&& e@ == "cannot restore "@ + snapshot.spec_family() + " snapshot into bailing_moe_linear"@
                },
            },
    {
        if !same(snapshot.family(), "bailing_moe_linear") {
            return Err(
                text("cannot restore ").lit(snapshot.family()).lit(" snapshot into bailing_moe_linear").done(),
            );
        }
        let mut fresh: Vec<BailingLinearCache<T>> = self.make_internal_caches();
        let mut r: Vec<BailingLinearCache<T>> = Vec::new();
        let mut i: usize = 0;
        let ghost goal = Seq::new(
            self.layers@.len(),
            |i: int| restored(
                self.fresh_caches::<T>()[i],
                snapshot.spec_tensors(),
                snapshot.spec_token_len(),
                snapshot_name(i as nat),
            ),
        );
        while i < fresh.len()
            invariant
                fresh@ == self.fresh_caches::<T>(),
                goal == Seq::new(
                    self.layers@.len(),
                    |i: int| restored(
                        self.fresh_caches::<T>()[i],
                        snapshot.spec_tensors(),
                        snapshot.spec_token_len(),
                        snapshot_name(i as nat),
                    ),
                ),
                i <= fresh@.len(),
                r@ =~= goal.subrange(0, i as int),
            decreases fresh@.len() - i,
        {
            let name: String = text("layer").num(i).done();
            let mut cache: BailingLinearCache<T> = fresh[i];
            cache.restore_from(snapshot, name.as_str());
            r.push(cache);
            i = i + 1;
        }
        assert(r@ =~= goal);
        Ok(r)
    }

    /// Validates the config and the checkpoint, and lays out the model with its load steps.
    pub fn from_weights(
        weights: &WeightMap,
        args: &ModelArgs,
        answers: &PackingAnswers,
        refusal: Option<&str>,
        chunked_prefill: bool,
    ) -> (r: Build<BailingMoeLinearModel>)
        ensures
            match r {
                Build::Refused(e) => args.finding(refusal) == Err::<(), Seq<char>>(e@) || (
                    args.finding(refusal) is Ok
                        && weights_verdict(checkpoint_view(weights@, answers@, *args), *args) == Verdict::Fail(e@)),
                Build::Ask(q) => args.finding(refusal) is Ok
                    && weights_verdict(checkpoint_view(weights@, answers@, *args), *args) == Verdict::Ask(q@),
                Build::Ready(m, s) => {
                    &&& args.finding(refusal) is Ok
                    &&& weights_verdict(checkpoint_view(weights@, answers@, *args), *args) is Pass
                    &&& s@ == model_steps(weights@, *args)
                    &&& m.layers@.len() == args.num_hidden_layers
                    &&& forall|i: int| 0 <= i < m.layers@.len() ==> (#[trigger] m.layers@[i]).describes(*args, i, chunked_prefill)
                    &&& forall|i: int| 0 <= i < m.layers@.len() ==> (#[trigger] m.layers@[i]).finds_router(weights@, i)
                    &&& m.global_layer_index matches Some(g) && g < m.layers@.len() && args.global(g as int)
                        && forall|j: int| 0 <= j < g ==> !args.global(j)
                    &&& m.tied == args.tie_word_embeddings
                    &&& m.eos_token_ids@ == args.spec_eos()
                },
            },
    {
        match args.validate(refusal) {
            Err(e) => {
                return Build::Refused(e);
            },
            Ok(_) => {},
        }
        proof {
            validated_config_is_usable(*args, refusal);
            usable_widths_are_small(*args);
            stack_has_a_global_layer(*args);
        }
        match validate_weights(weights, args, answers) {
            Outcome::Pass => {},
            Outcome::Fail(e) => {
                return Build::Refused(e);
            },
            Outcome::Ask(q) => {
                return Build::Ask(q);
            },
        }
        let ghost c = checkpoint_view(weights@, answers@, *args);
        let mut steps: Steps = Steps::new();
        steps.push(StepKind::Embedding, "model.word_embeddings".to_owned());
        let mut layers: Vec<DecoderLayer> = Vec::new();
        let mut i: usize = 0;
        while i < args.num_hidden_layers
            invariant
                i <= args.num_hidden_layers,
                args.usable(),
                c.weights == weights@,
                weights_verdict(c, *args) is Pass,
                layers@.len() == i,
                steps@ == stack_steps(weights@, *args, i as nat),
                forall|j: int| 0 <= j < i ==> (#[trigger] layers@[j]).describes(*args, j, chunked_prefill),
                forall|j: int| 0 <= j < i ==> (#[trigger] layers@[j]).finds_router(weights@, j),
            decreases args.num_hidden_layers - i,
        {
            proof {
                lemma_layer_passes(c, *args, 0, i as nat);
                lemma_passing_layer_is_laid_out(c, *args, i as nat);
            }
            match DecoderLayer::from_weights(weights, args, i, chunked_prefill, &mut steps) {
                Ok(layer) => layers.push(layer),
                Err(e) => {
                    assert(false);
                    return Build::Refused(e);
                },
            }
            i = i + 1;
        }
        steps.push(StepKind::Tensor, "model.norm.weight".to_owned());
        if !args.tie_word_embeddings {
            load_lm_head(weights, args.norm_head, "Ling linear MoE", &mut steps);
        }
        let model: BailingMoeLinearModel = BailingMoeLinearModel {
            layers,
            tied: args.tie_word_embeddings,
            global_layer_index: args.global_layer_index(),
            eos_token_ids: args.eos_token_ids(),
        };
        Build::Ready(model, steps)
    }
}

/// The caches of a model follow its schedule: a layer is never paired with a cache of the other
/// flavour.
pub proof fn caches_follow_the_schedule<T>(model: BailingMoeLinearModel, args: ModelArgs, i: int)
    requires
        0 <= i < model.layers@.len(),
        model.layers@[i].attention is Full <==> args.global(i),
    ensures
        model.fresh_caches::<T>()[i] is Attention <==> args.global(i),
        model.fresh_caches::<T>()[i] is Attention <==> model.layers@[i].attention is Full,
{
}

/// Under a valid config every attention block cuts and splits its fused projection without
/// overflow, and rotates an even number of channels that its head has.
pub proof fn valid_attention_fits(args: ModelArgs, layer: DecoderLayer, i: int, chunked_prefill: bool)
    requires
        args.usable(),
        layer.follows(args, i, chunked_prefill),
    ensures
        layer.attention matches AttentionKind::Full(a) ==> {
            &&& fused_fits(a.num_heads, a.num_kv_heads, a.head_dim)
            &&& a.num_heads * a.head_dim + 2 * (a.num_kv_heads * a.head_dim) == args.spec_attention_qkv_out()
            &&& 2 <= a.rope_dims <= a.head_dim
            &&& a.rope_dims % 2 == 0
        },
        layer.attention matches AttentionKind::Linear(a) ==> {
            &&& fused_fits(a.num_heads, a.num_heads, a.head_dim)
            &&& a.num_heads * a.head_dim == args.spec_linear_width()
            &&& 2 <= a.rope_dims <= a.head_dim
            &&& a.rope_dims % 2 == 0
        },
{
    usable_widths_are_small(args);
    let h = args.num_attention_heads as int;
    let n = args.hidden_size as int;
    vstd::arithmetic::div_mod::lemma_div_is_ordered_by_denominator(n, 1, h);
}

proof fn lemma_digits(n: nat, k: int)
    requires 0 <= k < dec(n).len(),
    ensures dec(n)[k] != '.',
    decreases n,
{
    if n >= 10 {
        if k < dec(n / 10).len() {
            lemma_digits(n / 10, k);
        }
    }
}

proof fn lemma_dec_nonempty(n: nat)
    ensures dec(n).len() >= 1,
    decreases n,
{
    if n >= 10 {
        lemma_dec_nonempty(n / 10);
    }
}

proof fn lemma_dec_injective(a: nat, b: nat)
    requires dec(a) == dec(b),
    ensures a == b,
    decreases a,
{
    lemma_dec_nonempty(a / 10);
    lemma_dec_nonempty(b / 10);
    if a < 10 {
        if b >= 10 {
            assert(dec(b).len() >= 2);
        } else {
            assert(dec(a)[0] == digit(a));
            assert(dec(b)[0] == digit(b));
        }
    } else {
        if b < 10 {
            assert(dec(a).len() >= 2);
        } else {
            assert(dec(a).drop_last() =~= dec(a / 10));
            assert(dec(b).drop_last() =~= dec(b / 10));
            lemma_dec_injective(a / 10, b / 10);
            assert(dec(a).last() == digit(a % 10));
            assert(dec(b).last() == digit(b % 10));
            assert(a % 10 == b % 10);
            assert(a == 10 * (a / 10) + a % 10);
            assert(b == 10 * (b / 10) + b % 10);
        }
    }
}

/// A snapshot name tells the layer and the part apart.
proof fn lemma_names_differ(i: nat, p: Seq<char>, j: nat, q: Seq<char>)
    requires
        p.len() > 0,
        q.len() > 0,
        p[0] == '.',
        q[0] == '.',
        snapshot_name(i) + p == snapshot_name(j) + q,
    ensures
        i == j,
        p == q,
{
    let a = dec(i);
    let b = dec(j);
    let l = "layer"@.len() as int;
    let s = snapshot_name(i) + p;
    let t = snapshot_name(j) + q;
    assert(s[l + a.len()] == '.');
    assert(t[l + b.len()] == '.');
    if a.len() < b.len() {
        lemma_digits(j, a.len() as int);
        assert(t[l + a.len()] == b[a.len() as int]);
    }
    if b.len() < a.len() {
        lemma_digits(i, b.len() as int);
        assert(s[l + b.len()] == a[b.len() as int]);
    }
    assert(a =~= b) by {
        assert forall|k: int| 0 <= k < a.len() implies a[k] == b[k] by {
            assert(s[l + k] == a[k]);
            assert(t[l + k] == b[k]);
        }
    }
    lemma_dec_injective(i, j);
    assert(p =~= q) by {
        assert(s.len() == l + a.len() + p.len());
        assert(t.len() == l + b.len() + q.len());
        assert forall|k: int| 0 <= k < p.len() implies p[k] == q[k] by {
            assert(s[l + a.len() + k] == p[k]);
            assert(t[l + b.len() + k] == q[k]);
        }
    }
}

/// The parts of a cache in a snapshot.
pub open spec fn is_part(p: Seq<char>) -> bool {
    p == ".attention.keys"@ || p == ".attention.values"@ || p == ".linear.state"@
}

proof fn lemma_parts()
    ensures
        forall|p: Seq<char>| #[trigger] is_part(p) ==> p.len() > 0 && p[0] == '.',
        ".attention.keys"@ != ".attention.values"@,
        ".attention.keys"@ != ".linear.state"@,
        ".attention.values"@ != ".linear.state"@,
{
    reveal_strlit(".attention.keys");
    reveal_strlit(".attention.values");
    reveal_strlit(".linear.state");
    assert(".attention.keys"@.len() != ".attention.values"@.len());
    assert(".attention.keys"@[1] != ".linear.state"@[1]);
    assert(".attention.values"@[1] != ".linear.state"@[1]);
}

/// Later layers leave the parts of earlier ones alone, and store nothing under their names.
proof fn lemma_snapped_all<T>(caches: Seq<BailingLinearCache<T>>, n: nat, i: nat, p: Seq<char>)
    requires
        n <= caches.len(),
        is_part(p),
    ensures
        ({
            let key = snapshot_name(i) + p;
            let v = if i < n {
                match caches[i as int] {
                    BailingLinearCache::Attention(kv) => if p == ".attention.keys"@ {
                        kv.keys
                    } else if p == ".attention.values"@ {
                        kv.values
                    } else {
                        None
                    },
                    BailingLinearCache::Linear(linear) => if p == ".linear.state"@ { linear.state } else { None },
                }
            } else {
                None
            };
            find(snapped_all(caches, n), key) == v
        }),
    decreases n,
{
    if n > 0 {
        let j = (n - 1) as nat;
        lemma_snapped_all(caches, j, i, p);
        lemma_parts();
        let key = snapshot_name(i) + p;
        let a = ".attention.keys"@;
        let b = ".attention.values"@;
        let c = ".linear.state"@;
        assert(is_part(a) && is_part(b) && is_part(c));
        if snapshot_name(j) + a == key { lemma_names_differ(j, a, i, p); }
        if snapshot_name(j) + b == key { lemma_names_differ(j, b, i, p); }
        if snapshot_name(j) + c == key { lemma_names_differ(j, c, i, p); }
    }
}

/// Restoring a snapshot gives every layer its cache back: the tensors as they were, and the
/// position that the snapshot was taken at.
pub proof fn restoring_undoes_snapshotting<T>(caches: Seq<BailingLinearCache<T>>, token_len: usize, i: int)
    requires 0 <= i < caches.len(),
    ensures
        restored(caches[i], snapped_all(caches, caches.len()), token_len, snapshot_name(i as nat)) == match caches[i] {
            BailingLinearCache::Attention(kv) => BailingLinearCache::Attention(
                KvCache { keys: kv.keys, values: kv.values, offset: token_len as i32 },
            ),
            BailingLinearCache::Linear(linear) => BailingLinearCache::Linear(
                LinearAttentionCache { state: linear.state, offset: token_len as i32 },
            ),
        },
{
    lemma_parts();
    assert(is_part(".attention.keys"@) && is_part(".attention.values"@) && is_part(".linear.state"@));
    lemma_snapped_all(caches, caches.len(), i as nat, ".attention.keys"@);
    lemma_snapped_all(caches, caches.len(), i as nat, ".attention.values"@);
    lemma_snapped_all(caches, caches.len(), i as nat, ".linear.state"@);
}

proof fn lemma_attention_served(c: CheckpointView, s: Seq<StepView>, args: ModelArgs, a: Seq<char>, i: nat)
    requires
        all_served(s, c.weights),
        attention_verdict(c, args, a, i) is Pass,
    ensures
        all_served(
            if args.global(i as int) {
                attention_steps(s, a, args.use_qk_norm)
            } else {
                linear_steps(s, a, args.use_qk_norm)
            },
            c.weights,
        ),
{
}

proof fn lemma_feed_forward_served(c: CheckpointView, s: Seq<StepView>, args: ModelArgs, mlp: Seq<char>, i: nat)
    requires
        all_served(s, c.weights),
        feed_forward_verdict(c, args, mlp, i) is Pass,
    ensures
        all_served(
            if args.sparse(i as int) {
                sparse_steps(s, c.weights, mlp, args.moe_router_enable_expert_bias, args.spec_has_shared())
            } else {
                mlp_steps(s, mlp)
            },
            c.weights,
        ),
{
    if args.sparse(i as int) {
        lemma_sparse_served(
            c,
            s,
            mlp,
            args.spec_experts(),
            args.hidden_size as nat,
            args.spec_moe_width(),
            args.moe_router_enable_expert_bias,
            if args.spec_has_shared() { Some(args.spec_shared_width()) } else { None },
        );
    } else {
        lemma_mlp_served(c, s, mlp, args.hidden_size as nat, args.intermediate_size as nat);
    }
}

proof fn lemma_stack_served(c: CheckpointView, args: ModelArgs, n: nat)
    requires
        layers_verdict(c, args, 0) is Pass,
        n <= args.num_hidden_layers,
    ensures
        all_served(stack_steps(c.weights, args, n), c.weights),
    decreases n,
{
    if n > 0 {
        let i = (n - 1) as nat;
        let p = layer_name(i);
        lemma_stack_served(c, args, i);
        lemma_layer_passes(c, args, 0, i);
        let s = stack_steps(c.weights, args, i);
        let a = p + ".attention"@;
        lemma_attention_served(c, s, args, a, i);
        let s = if args.global(i as int) {
            attention_steps(s, a, args.use_qk_norm)
        } else {
            linear_steps(s, a, args.use_qk_norm)
        };
        lemma_feed_forward_served(c, s, args, p + ".mlp"@, i);
    }
}

/// A checkpoint that passes holds every tensor that the load takes and the weight of every
/// projection that it builds, unless the config asks to normalize a quantized output projection.
pub proof fn passing_checkpoint_serves_the_load(c: CheckpointView, args: ModelArgs)
    requires
        weights_verdict(c, args) is Pass,
        args.tie_word_embeddings || !args.norm_head || !c.weights.contains_key("lm_head.scales"@),
    ensures
        all_served(model_steps(c.weights, args), c.weights),
{
    lemma_stack_served(c, args, args.num_hidden_layers as nat);
    let s = step(
        stack_steps(c.weights, args, args.num_hidden_layers as nat),
        StepKind::Tensor,
        "model.norm.weight"@,
    );
    assert(all_served(s, c.weights));
    if !args.tie_word_embeddings {
        lemma_head_served(c, s, args.norm_head, "Ling linear MoE"@, args.vocab_size as nat, args.hidden_size as nat);
    }
}

} // verus!
