//! Bailing MoE (`bailing_moe`), the architecture behind the Ling family: fused query/key/value
//! projections and a mixture of experts behind an optional dense prefix.
use vstd::prelude::*;
use vstd::string::*;
use crate::json::ScalingBlock;
use crate::limits::{
    check_dense_prefix, check_kv_heads, check_norm_eps, check_quantization_params, check_range,
    check_rope_scaling, check_rope_theta, check_rotary_width, check_shared_width, dense_prefix,
    in_range, kv_heads, next, norm_eps, quantization_params, rope_scaling, rope_theta, rotary_width,
    shared_width, told, Finding, Routing, RoutingView, MAX_HIDDEN_SIZE, MAX_INTERMEDIATE_SIZE,
    MAX_MAX_POSITION_EMBEDDINGS, MAX_NUM_ATTENTION_HEADS, MAX_NUM_HIDDEN_LAYERS,
    MAX_NUM_SHARED_EXPERTS, MAX_VOCAB_SIZE,
};
use crate::plan::{
    attend_causal, causal_unless_masked, countable, flat_plan, flatten, AttendPlan, FlatPlan,
    Basis, Divisor, HeadPlan, Precision, QkvCut, Rope, RoutePlan, Scoring,
};
use crate::single::{finite, positive, scale_width, scaled_width, Single, ONE_BITS};
use crate::steps::{all_served, served, step, Build, StepKind, StepView, Steps};
use crate::text::{dec, opt_text, same, text};
use crate::weights::{
    after, asks_soundly, layer_name, layer_prefix, lemma_mlp_asks, lemma_projection_asks,
    lemma_stacked_asks, missing, missing_text, Checkpoint, CheckpointView, Outcome, PackingAnswers,
    ProjectionStyle, Verdict, WeightMap,
};

verus! {

/// Bailing MoE `config.json`.
#[derive(Clone, Debug)]
pub struct ModelArgs {
    pub model_type: String,
    pub hidden_size: usize,
    pub num_hidden_layers: usize,
    pub num_attention_heads: usize,
    pub intermediate_size: usize,
    pub vocab_size: usize,
    /// As many as the query heads when absent.
    pub num_key_value_heads: Option<usize>,
    /// `intermediate_size` when absent.
    pub moe_intermediate_size: Option<usize>,
    /// No routed experts when absent.
    pub num_experts: Option<usize>,
    pub num_shared_experts: usize,
    pub num_experts_per_tok: usize,
    pub norm_topk_prob: bool,
    /// Layers below this index use a plain SwiGLU MLP.
    pub first_k_dense_replace: usize,
    pub max_position_embeddings: usize,
    pub rms_norm_eps: Single,
    pub rope_theta: Single,
    pub rope_scaling: Option<ScalingBlock>,
    pub use_bias: bool,
    pub use_qkv_bias: bool,
    pub norm_head: bool,
    pub norm_softmax: bool,
    pub use_qk_norm: bool,
    pub tie_word_embeddings: bool,
    pub partial_rotary_factor: Single,
    /// Overrides `partial_rotary_factor` when present.
    pub rotary_dim: Option<usize>,
    pub moe_router_enable_expert_bias: bool,
    /// Never consulted: the routed weights are scaled in either case.
    pub moe_router_enable_routed_scaling: bool,
    pub routed_scaling_factor: Single,
    pub score_function: String,
    pub n_group: usize,
    pub topk_group: usize,
    pub moe_shared_expert_intermediate_size: Option<usize>,
    pub moe_router_enable_shared_expert: bool,
    pub eos_token_id: Option<TokenIdField>,
    pub quantization: Option<Quantization>,
}

/// A `config.json` token-id field, which may be a single int or a list of ints.
#[derive(Clone, Debug)]
pub enum TokenIdField {
    Single(i32),
    Multiple(Vec<i32>),
}

impl TokenIdField {
    /// The ids that the field lists.
    pub open spec fn spec_ids(&self) -> Seq<i32> {
        match self {
            TokenIdField::Single(id) => seq![*id],
            TokenIdField::Multiple(ids) => ids@,
        }
    }

    /// The ids that the field lists.
    pub fn ids(&self) -> (r: Vec<i32>)
        ensures r@ == self.spec_ids(),
    {
        match self {
            TokenIdField::Single(id) => {
                let r: Vec<i32> = vec![*id];
                assert(r@ =~= seq![*id]);
                r
            },
            TokenIdField::Multiple(ids) => crate::weights::copy_shape(ids),
        }
    }
}

/// The top-level `quantization` block.
#[derive(Clone, Copy, Debug)]
pub struct Quantization {
    pub group_size: i32,
    pub bits: i32,
}

pub fn default_model_type() -> (r: String)
    ensures r@ == "bailing_moe"@,
{
    "bailing_moe".to_owned()
}

pub fn default_num_experts_per_tok() -> (r: usize)
    ensures r == 1,
{
    1
}

pub fn default_norm_topk_prob() -> (r: bool)
    ensures r,
{
    true
}

pub fn default_max_position_embeddings() -> (r: usize)
    ensures r == 32_768,
{
    32_768
}

pub fn default_true() -> (r: bool)
    ensures r,
{
    true
}

pub fn default_score_function() -> (r: String)
    ensures r@ == "softmax"@,
{
    "softmax".to_owned()
}

pub fn default_n_group() -> (r: usize)
    ensures r == 1,
{
    1
}

pub fn default_topk_group() -> (r: usize)
    ensures r == 4,
{
    4
}

pub fn default_rms_norm_eps() -> (r: Single)
    ensures r.bits == 0x3586_37bd, r.text@ == "0.000001"@,
{
    Single { bits: 0x3586_37bd, text: "0.000001".to_owned() }
}

pub fn default_rope_theta() -> (r: Single)
    ensures r.bits == 0x4912_7c00, r.text@ == "600000"@,
{
    Single { bits: 0x4912_7c00, text: "600000".to_owned() }
}

pub fn default_partial_rotary_factor() -> (r: Single)
    ensures r.bits == 0x3f80_0000, r.text@ == "1"@,
{
    Single { bits: 0x3f80_0000, text: "1".to_owned() }
}

pub fn default_routed_scaling_factor() -> (r: Single)
    ensures r.bits == 0x3f80_0000, r.text@ == "1"@,
{
    Single { bits: 0x3f80_0000, text: "1".to_owned() }
}

/// Which non-linearity turns router logits into routing probabilities.
#[derive(Clone, Copy, Debug, PartialEq, Eq, Structural)]
pub enum ScoreFunction {
    Softmax,
    Sigmoid,
}

impl ModelArgs {
    /// Width of one head.
    pub open spec fn spec_head_dim(&self) -> nat {
        (self.hidden_size / self.num_attention_heads) as nat
    }

    /// Query, key and value channels of the fused projection.
    pub open spec fn spec_qkv_out(&self) -> nat {
        ((self.num_attention_heads + 2 * self.spec_kv_heads()) * self.spec_head_dim()) as nat
    }

    /// Rotated channels of a head.
    pub open spec fn spec_rope_dims(&self) -> int {
        match self.rotary_dim {
            Some(dims) => if dims > i32::MAX { i32::MAX as int } else { dims as int },
            None => scaled_width(self.partial_rotary_factor.bits, self.spec_head_dim()),
        }
    }

    pub fn head_dim(&self) -> (r: usize)
        requires self.num_attention_heads > 0,
        ensures r == self.spec_head_dim(),
    {
        self.hidden_size / self.num_attention_heads
    }

    /// Output width of the fused projection.
    pub fn qkv_out_features(&self) -> (r: usize)
        requires
            self.num_attention_heads > 0,
            self.num_attention_heads + 2 * self.spec_kv_heads() <= usize::MAX,
            self.spec_qkv_out() <= usize::MAX,
        ensures r == self.spec_qkv_out(),
    {
        (self.num_attention_heads + 2 * self.num_kv_heads()) * self.head_dim()
    }

    /// Where the keys and the values begin on the last axis of the fused projection.
    pub fn qkv_split_offsets(&self) -> (r: (usize, usize))
        requires
            self.num_attention_heads > 0,
            (self.num_attention_heads + self.spec_kv_heads()) * self.spec_head_dim() <= usize::MAX,
        ensures
            r.0 == self.num_attention_heads * self.spec_head_dim(),
            r.1 == (self.num_attention_heads + self.spec_kv_heads()) * self.spec_head_dim(),
    {
        let head_dim: usize = self.head_dim();
        proof {
            let h = self.num_attention_heads as int;
            let k = self.spec_kv_heads() as int;
            let d = head_dim as int;
            assert((h + k) * d == h * d + k * d) by (nonlinear_arith);
            assert(h * d >= 0 && k * d >= 0) by (nonlinear_arith) requires h >= 0, k >= 0, d >= 0;
        }
        let q_size: usize = self.num_attention_heads * head_dim;
        (q_size, q_size + self.num_kv_heads() * head_dim)
    }

    /// Rotated channels of a head: `rotary_dim` where given, else the factor's share of the head.
    pub fn rope_dims(&self) -> (r: i32)
        requires self.rotary_dim is None ==> self.num_attention_heads > 0,
        ensures r == self.spec_rope_dims(),
    {
        match self.rotary_dim {
            Some(dims) => if dims > i32::MAX as usize { i32::MAX } else { dims as i32 },
            None => scale_width(&self.partial_rotary_factor, self.head_dim()),
        }
    }

    pub open spec fn spec_kv_heads(&self) -> nat {
        match self.num_key_value_heads {
            Some(n) => n as nat,
            None => self.num_attention_heads as nat,
        }
    }

    pub open spec fn spec_moe_width(&self) -> nat {
        match self.moe_intermediate_size {
            Some(n) => n as nat,
            None => self.intermediate_size as nat,
        }
    }

    pub open spec fn spec_experts(&self) -> nat {
        match self.num_experts {
            Some(n) => n as nat,
            None => 0,
        }
    }

    /// Width of one shared expert.
    pub open spec fn spec_shared_dim(&self) -> nat {
        match self.moe_shared_expert_intermediate_size {
            Some(n) => n as nat,
            None => self.spec_moe_width(),
        }
    }

    pub open spec fn spec_shared_width(&self) -> nat {
        let w = self.spec_shared_dim() * self.num_shared_experts;
        if w > usize::MAX { usize::MAX as nat } else { w as nat }
    }

    pub open spec fn spec_has_shared(&self) -> bool {
        self.num_shared_experts > 0 && self.moe_router_enable_shared_expert
    }

    /// Layer `i` is sparse.
    pub open spec fn sparse(&self, i: int) -> bool {
        self.spec_experts() > 0 && i >= self.first_k_dense_replace
    }

    pub open spec fn spec_score_function(&self) -> ScoreFunction {
        if self.score_function@ == "sigmoid"@ { ScoreFunction::Sigmoid } else { ScoreFunction::Softmax }
    }

    pub open spec fn spec_group_size(&self) -> i32 {
        match self.quantization {
            Some(q) => q.group_size,
            None => 64,
        }
    }

    pub open spec fn spec_bits(&self) -> i32 {
        match self.quantization {
            Some(q) => q.bits,
            None => 4,
        }
    }

    pub open spec fn spec_eos(&self) -> Seq<i32> {
        match self.eos_token_id {
            Some(field) => field.spec_ids(),
            None => Seq::empty(),
        }
    }

    pub fn num_kv_heads(&self) -> (r: usize)
        ensures r == self.spec_kv_heads(),
    {
        match self.num_key_value_heads {
            Some(n) => n,
            None => self.num_attention_heads,
        }
    }

    pub fn moe_intermediate_size(&self) -> (r: usize)
        ensures r == self.spec_moe_width(),
    {
        match self.moe_intermediate_size {
            Some(n) => n,
            None => self.intermediate_size,
        }
    }

    pub fn num_experts(&self) -> (r: usize)
        ensures r == self.spec_experts(),
    {
        match self.num_experts {
            Some(n) => n,
            None => 0,
        }
    }

    pub fn has_routed_experts(&self) -> (r: bool)
        ensures r == (self.spec_experts() > 0),
    {
        self.num_experts() > 0
    }

    fn shared_dim(&self) -> (r: usize)
        ensures r == self.spec_shared_dim(),
    {
        match self.moe_shared_expert_intermediate_size {
            Some(n) => n,
            None => self.moe_intermediate_size(),
        }
    }

    /// Width of the shared expert, one MLP of `num_shared_experts` times the expert width, stopping
    /// at the largest `usize`.
    pub fn shared_expert_intermediate_size(&self) -> (r: usize)
        ensures r == self.spec_shared_width(),
    {
        match self.shared_dim().checked_mul(self.num_shared_experts) {
            Some(w) => w,
            None => usize::MAX,
        }
    }

    pub fn has_shared_expert(&self) -> (r: bool)
        ensures r == self.spec_has_shared(),
    {
        self.num_shared_experts > 0 && self.moe_router_enable_shared_expert
    }

    /// Whether layer `layer_idx` is sparse.
    pub fn is_moe_layer(&self, layer_idx: usize) -> (r: bool)
        ensures r == self.sparse(layer_idx as int),
    {
        self.has_routed_experts() && layer_idx >= self.first_k_dense_replace
    }

    pub fn score_function(&self) -> (r: ScoreFunction)
        ensures r == self.spec_score_function(),
    {
        if same(self.score_function.as_str(), "sigmoid") { ScoreFunction::Sigmoid } else { ScoreFunction::Softmax }
    }

    pub fn group_size(&self) -> (r: i32)
        ensures r == self.spec_group_size(),
    {
        match &self.quantization {
            Some(q) => q.group_size,
            None => 64,
        }
    }

    pub fn bits(&self) -> (r: i32)
        ensures r == self.spec_bits(),
    {
        match &self.quantization {
            Some(q) => q.bits,
            None => 4,
        }
    }

    pub fn eos_token_ids(&self) -> (r: Vec<i32>)
        ensures r@ == self.spec_eos(),
    {
        match &self.eos_token_id {
            Some(field) => field.ids(),
            None => Vec::new(),
        }
    }

    /// Whether the config clears `moe_router_enable_routed_scaling` beside a factor that would show:
    /// the flag is ignored, so the factor is applied all the same.
    pub fn routed_scaling_flag_is_ignored_observably(&self) -> (r: bool)
        ensures
            r == (self.spec_experts() > 0 && !self.moe_router_enable_routed_scaling
                && self.routed_scaling_factor.bits != ONE_BITS),
    {
        self.has_routed_experts() && !self.moe_router_enable_routed_scaling
            && !self.routed_scaling_factor.is_one()
    }

    /// What the router is configured with.
    pub open spec fn routing(&self) -> RoutingView {
        RoutingView {
            family: "Bailing MoE"@,
            score_field: "score_function"@,
            score_choices: "\"softmax\" (the Bailing default) or \"sigmoid\""@,
            scale_field: "routed_scaling_factor"@,
            num_experts: self.spec_experts(),
            num_experts_per_tok: self.num_experts_per_tok as nat,
            score: self.score_function@,
            n_group: self.n_group as nat,
            topk_group: self.topk_group as nat,
            scale: self.routed_scaling_factor,
        }
    }

    /// The router parameters, where there are routed experts.
    pub open spec fn routing_finding(&self) -> Finding {
        if self.spec_experts() == 0 { Ok(()) } else { self.routing().finding() }
    }

    fn validate_routing(&self) -> (r: Result<(), String>)
        ensures told(r) == self.routing_finding(),
    {
        if !self.has_routed_experts() {
            return Ok(());
        }
        let routing: Routing<'_> = Routing {
            family: "Bailing MoE",
            score_field: "score_function",
            score_choices: "\"softmax\" (the Bailing default) or \"sigmoid\"",
            scale_field: "routed_scaling_factor",
            num_experts: self.num_experts(),
            num_experts_per_tok: self.num_experts_per_tok,
            score: self.score_function.as_str(),
            n_group: self.n_group,
            topk_group: self.topk_group,
            scale: &self.routed_scaling_factor,
        };
        routing.check()
    }

    /// The width of the shared expert.
    pub open spec fn shared_finding(&self) -> Finding {
        shared_width(
            "Bailing MoE"@,
            "moe_shared_expert_intermediate_size"@,
            true,
            self.spec_has_shared(),
            self.spec_shared_dim(),
            self.num_shared_experts as nat,
        )
    }

    fn validate_shared_expert(&self) -> (r: Result<(), String>)
        ensures told(r) == self.shared_finding(),
    {
        check_shared_width(
            "Bailing MoE",
            "moe_shared_expert_intermediate_size",
            true,
            self.has_shared_expert(),
            self.shared_dim(),
            self.num_shared_experts,
        )
    }

    /// The warning that goes with an ignored scaling flag.
    pub open spec fn scaling_warning(&self) -> Seq<char> {
        "Bailing MoE config sets moe_router_enable_routed_scaling: false with routed_scaling_factor "@
            + self.routed_scaling_factor.text@
            + ". Upstream mlx-lm stores that flag and never reads it, so the scaling multiply is unconditional; this loader mirrors upstream and applies the factor anyway. Routed expert weights will be scaled by "@
            + self.routed_scaling_factor.text@ + "."@
    }

    /// The warning to print when the scaling flag is ignored observably.
    pub fn warn_on_ignored_routed_scaling_flag(&self) -> (r: Option<String>)
        ensures
            r is Some <==> (self.spec_experts() > 0 && !self.moe_router_enable_routed_scaling
                && self.routed_scaling_factor.bits != ONE_BITS),
            r matches Some(w) ==> w@ == self.scaling_warning(),
    {
        if self.routed_scaling_flag_is_ignored_observably() {
            Some(
                text(
                    "Bailing MoE config sets moe_router_enable_routed_scaling: false with routed_scaling_factor ",
                ).lit(self.routed_scaling_factor.text.as_str()).lit(
                    ". Upstream mlx-lm stores that flag and never reads it, so the scaling multiply is unconditional; this loader mirrors upstream and applies the factor anyway. Routed expert weights will be scaled by ",
                ).lit(self.routed_scaling_factor.text.as_str()).lit(".").done(),
            )
        } else {
            None
        }
    }

    /// The rotation parameters.
    pub open spec fn rope_finding(&self) -> Finding {
        if self.rotary_dim is None && !finite(self.partial_rotary_factor.bits) {
            Err(
                "Bailing MoE partial_rotary_factor ("@ + self.partial_rotary_factor.text@
                    + ") must be a finite number"@,
            )
        } else {
            next(
                rope_theta("Bailing MoE"@, self.rope_theta),
                rotary_width(
                    "Bailing MoE"@,
                    self.spec_rope_dims(),
                    self.spec_head_dim(),
                    "rotary_dim ("@ + opt_text(self.rotary_dim) + ") and partial_rotary_factor ("@
                        + self.partial_rotary_factor.text@ + ")"@,
                ),
            )
        }
    }

    fn validate_rope(&self) -> (r: Result<(), String>)
        requires self.num_attention_heads > 0,
        ensures told(r) == self.rope_finding(),
    {
        if self.rotary_dim.is_none() && !self.partial_rotary_factor.is_finite() {
            return Err(
                text("Bailing MoE partial_rotary_factor (").lit(self.partial_rotary_factor.text.as_str()).lit(
                    ") must be a finite number",
                ).done(),
            );
        }
        let r: Result<(), String> = check_rope_theta("Bailing MoE", &self.rope_theta);
        if r.is_err() { return r; }
        let advice: String = text("rotary_dim (").opt(self.rotary_dim).lit(
            ") and partial_rotary_factor (",
        ).lit(self.partial_rotary_factor.text.as_str()).lit(")").done();
        check_rotary_width("Bailing MoE", self.rope_dims(), self.head_dim(), advice.as_str())
    }

    /// No flag is set that nothing defines.
    pub open spec fn vendor_finding(&self) -> Finding {
        if self.norm_softmax {
            Err(
                "Bailing MoE config sets norm_softmax: true, which no released implementation defines. mlx-lm declares the field and never reads it, the vendored modeling_bailing_moe.py does not mention it, and configuration_bailing_moe.py does not name it as a parameter. Loading anyway would silently ignore a flag the checkpoint author set on purpose."@,
            )
        } else {
            Ok(())
        }
    }

    fn validate_vendor_flags(&self) -> (r: Result<(), String>)
        ensures told(r) == self.vendor_finding(),
    {
        if self.norm_softmax {
            return Err(
                "Bailing MoE config sets norm_softmax: true, which no released implementation defines. mlx-lm declares the field and never reads it, the vendored modeling_bailing_moe.py does not mention it, and configuration_bailing_moe.py does not name it as a parameter. Loading anyway would silently ignore a flag the checkpoint author set on purpose.".to_owned(),
            );
        }
        Ok(())
    }

    /// The heads divide the hidden width.
    pub open spec fn divides_finding(&self) -> Finding {
        if self.hidden_size as nat % self.num_attention_heads as nat != 0 {
            Err(
                "Bailing MoE hidden_size ("@ + dec(self.hidden_size as nat)
                    + ") must be divisible by num_attention_heads ("@ + dec(self.num_attention_heads as nat)
                    + "); upstream derives head_dim as hidden_size // num_attention_heads"@,
            )
        } else {
            Ok(())
        }
    }

    fn validate_divides(&self) -> (r: Result<(), String>)
        requires self.num_attention_heads > 0,
        ensures told(r) == self.divides_finding(),
    {
        if self.hidden_size % self.num_attention_heads != 0 {
            return Err(
                text("Bailing MoE hidden_size (").num(self.hidden_size).lit(
                    ") must be divisible by num_attention_heads (",
                ).num(self.num_attention_heads).lit(
                    "); upstream derives head_dim as hidden_size // num_attention_heads",
                ).done(),
            );
        }
        Ok(())
    }

    /// What is wrong with a config, if anything: the first check that does not hold, in order.
    /// `refusal` is the engine's error on the quantization parameters.
    pub open spec fn finding(&self, refusal: Option<&str>) -> Finding {
        let f = "Bailing MoE"@;
        next(in_range(f, "num_attention_heads"@, self.num_attention_heads as nat, MAX_NUM_ATTENTION_HEADS as nat),
        next(in_range(f, "hidden_size"@, self.hidden_size as nat, MAX_HIDDEN_SIZE as nat),
        next(self.divides_finding(),
        next(kv_heads(f, self.spec_kv_heads(), self.num_attention_heads as nat),
        next(in_range(f, "num_hidden_layers"@, self.num_hidden_layers as nat, MAX_NUM_HIDDEN_LAYERS as nat),
        next(in_range(f, "intermediate_size"@, self.intermediate_size as nat, MAX_INTERMEDIATE_SIZE as nat),
        next(in_range(f, "moe_intermediate_size"@, self.spec_moe_width(), MAX_INTERMEDIATE_SIZE as nat),
        next(in_range(f, "vocab_size"@, self.vocab_size as nat, MAX_VOCAB_SIZE as nat),
        next(in_range(f, "max_position_embeddings"@, self.max_position_embeddings as nat, MAX_MAX_POSITION_EMBEDDINGS as nat),
        next(dense_prefix(f, "first_k_dense_replace"@, self.first_k_dense_replace as nat, self.num_hidden_layers as nat),
        next(self.routing_finding(),
        next(self.shared_finding(),
        next(self.rope_finding(),
        next(rope_scaling(f, self.rope_scaling),
        next(norm_eps(f, self.rms_norm_eps),
        next(self.vendor_finding(),
            quantization_params(f, self.quantization is Some, refusal)))))))))))))))))
    }

    /// Rejects a config that cannot describe a real model of this family, before any of its fields
    /// sizes an allocation, divides, or reaches a kernel.
    pub fn validate(&self, refusal: Option<&str>) -> (r: Result<(), String>)
        ensures told(r) == self.finding(refusal),
    {
        let f: &str = "Bailing MoE";
        let r: Result<(), String> = check_range(f, "num_attention_heads", self.num_attention_heads, MAX_NUM_ATTENTION_HEADS);
        if r.is_err() { return r; }
        let r: Result<(), String> = check_range(f, "hidden_size", self.hidden_size, MAX_HIDDEN_SIZE);
        if r.is_err() { return r; }
        let r: Result<(), String> = self.validate_divides();
        if r.is_err() { return r; }
        let r: Result<(), String> = check_kv_heads(f, self.num_kv_heads(), self.num_attention_heads);
        if r.is_err() { return r; }
        let r: Result<(), String> = check_range(f, "num_hidden_layers", self.num_hidden_layers, MAX_NUM_HIDDEN_LAYERS);
        if r.is_err() { return r; }
        let r: Result<(), String> = check_range(f, "intermediate_size", self.intermediate_size, MAX_INTERMEDIATE_SIZE);
        if r.is_err() { return r; }
        let r: Result<(), String> = check_range(f, "moe_intermediate_size", self.moe_intermediate_size(), MAX_INTERMEDIATE_SIZE);
        if r.is_err() { return r; }
        let r: Result<(), String> = check_range(f, "vocab_size", self.vocab_size, MAX_VOCAB_SIZE);
        if r.is_err() { return r; }
        let r: Result<(), String> = check_range(f, "max_position_embeddings", self.max_position_embeddings, MAX_MAX_POSITION_EMBEDDINGS);
        if r.is_err() { return r; }
        let r: Result<(), String> = check_dense_prefix(f, "first_k_dense_replace", self.first_k_dense_replace, self.num_hidden_layers);
        if r.is_err() { return r; }
        let r: Result<(), String> = self.validate_routing();
        if r.is_err() { return r; }
        let r: Result<(), String> = self.validate_shared_expert();
        if r.is_err() { return r; }
        let r: Result<(), String> = self.validate_rope();
        if r.is_err() { return r; }
        let r: Result<(), String> = check_rope_scaling(f, &self.rope_scaling);
        if r.is_err() { return r; }
        let r: Result<(), String> = check_norm_eps(f, &self.rms_norm_eps);
        if r.is_err() { return r; }
        let r: Result<(), String> = self.validate_vendor_flags();
        if r.is_err() { return r; }
        check_quantization_params(f, self.quantization.is_some(), refusal)
    }

    /// The scalars of a config that a model can be built from.
    pub open spec fn usable(&self) -> bool {
        &&& 1 <= self.num_attention_heads <= MAX_NUM_ATTENTION_HEADS
        &&& 1 <= self.hidden_size <= MAX_HIDDEN_SIZE
        &&& self.hidden_size as nat % self.num_attention_heads as nat == 0
        &&& 1 <= self.spec_kv_heads() <= self.num_attention_heads
        &&& self.num_attention_heads as nat % self.spec_kv_heads() == 0
        &&& 1 <= self.num_hidden_layers <= MAX_NUM_HIDDEN_LAYERS
        &&& 1 <= self.intermediate_size <= MAX_INTERMEDIATE_SIZE
        &&& 1 <= self.spec_moe_width() <= MAX_INTERMEDIATE_SIZE
        &&& 1 <= self.vocab_size <= MAX_VOCAB_SIZE
        &&& 1 <= self.max_position_embeddings <= MAX_MAX_POSITION_EMBEDDINGS
        &&& self.first_k_dense_replace <= self.num_hidden_layers
        &&& self.spec_experts() > 0 ==> self.routing().usable()
        &&& self.spec_has_shared() ==> 1 <= self.spec_shared_dim() * self.num_shared_experts <= MAX_INTERMEDIATE_SIZE
        &&& self.rotary_dim is Some || finite(self.partial_rotary_factor.bits)
        &&& 2 <= self.spec_rope_dims() <= self.spec_head_dim()
        &&& self.spec_rope_dims() % 2 == 0
        &&& finite(self.rope_theta.bits) && positive(self.rope_theta.bits)
        &&& finite(self.rms_norm_eps.bits) && positive(self.rms_norm_eps.bits)
        &&& !self.norm_softmax
    }
}

/// A config passes validation exactly when every scalar is in its range, positions are not scaled,
/// and the engine accepts the quantization parameters.
pub proof fn validated_config_is_usable(args: ModelArgs, refusal: Option<&str>)
    ensures
        args.finding(refusal) is Ok <==> {
            &&& args.usable()
            &&& args.num_shared_experts <= MAX_NUM_SHARED_EXPERTS
            &&& rope_scaling("Bailing MoE"@, args.rope_scaling) is Ok
            &&& args.quantization is Some ==> refusal is None
        },
{
}

/// The three parts of the fused projection fill it without a gap: queries up to the first offset,
/// keys up to the second, and as many values behind it. With one key/value head per query head the
/// parts are even thirds.
pub proof fn qkv_split_covers_the_projection(args: ModelArgs)
    requires args.num_attention_heads > 0,
    ensures
        ({
            let d = args.spec_head_dim();
            let q = args.num_attention_heads * d;
            let kv = args.spec_kv_heads() * d;
            &&& (args.num_attention_heads + args.spec_kv_heads()) * d == q + kv
            &&& args.spec_qkv_out() == q + 2 * kv
            &&& args.spec_kv_heads() == args.num_attention_heads ==> args.spec_qkv_out() == 3 * q && kv == q
        }),
{
    let h = args.num_attention_heads as int;
    let k = args.spec_kv_heads() as int;
    let d = args.spec_head_dim() as int;
    assert((h + k) * d == h * d + k * d) by (nonlinear_arith);
    assert((h + 2 * k) * d == h * d + 2 * (k * d)) by (nonlinear_arith);
}

/// The widths of a usable config stay far below what a `usize` or an `i32` holds.
pub proof fn usable_widths_are_small(args: ModelArgs)
    requires args.usable(),
    ensures
        args.num_attention_heads * args.spec_head_dim() == args.hidden_size,
        args.spec_kv_heads() * args.spec_head_dim() <= args.hidden_size,
        args.spec_qkv_out() <= 3 * MAX_HIDDEN_SIZE,
{
    let h = args.num_attention_heads as int;
    let n = args.hidden_size as int;
    let k = args.spec_kv_heads() as int;
    let d = args.spec_head_dim() as int;
    vstd::arithmetic::div_mod::lemma_fundamental_div_mod(n, h);
    assert(h * d == n);
    assert(k * d <= h * d) by (nonlinear_arith) requires 0 <= k <= h, d >= 0;
    qkv_split_covers_the_projection(args);
}

/// The checkpoint as this family looks at it.
pub open spec fn checkpoint_view(
    weights: Map<Seq<char>, Seq<i32>>,
    answers: Map<Seq<char>, Option<Seq<char>>>,
    args: ModelArgs,
) -> CheckpointView {
    CheckpointView {
        weights,
        answers,
        group_size: args.spec_group_size(),
        bits: args.spec_bits(),
        style: ProjectionStyle::Bailing,
    }
}

/// The router of a sparse block: under `gate.gate_proj` where that is stored, else under `gate`.
pub open spec fn router_key(weights: Map<Seq<char>, Seq<i32>>, mlp: Seq<char>) -> Result<Seq<char>, Seq<char>> {
    let converted = mlp + ".gate.gate_proj"@;
    let raw = mlp + ".gate"@;
    if weights.contains_key(converted + ".weight"@) {
        Ok(converted)
    } else if weights.contains_key(raw + ".weight"@) {
        Ok(raw)
    } else {
        Err(
            "Bailing MoE router weight not found: expected "@ + mlp + ".gate.weight (raw checkpoint) or "@ + mlp
                + ".gate.gate_proj.weight (mlx-lm conversion, which renames the router into the gate_proj spelling the routed experts also use)"@,
        )
    }
}

/// The prefix of a router's weight, in either spelling a checkpoint may use.
pub fn router_prefix(weights: &WeightMap, mlp_prefix: &str) -> (r: Result<String, String>)
    ensures
        match r {
            Ok(key) => router_key(weights@, mlp_prefix@) == Ok::<Seq<char>, Seq<char>>(key@),
            Err(e) => router_key(weights@, mlp_prefix@) == Err::<Seq<char>, Seq<char>>(e@),
        },
{
    let converted: String = text(mlp_prefix).lit(".gate.gate_proj").done();
    let key: String = text(converted.as_str()).lit(".weight").done();
    if weights.contains_key(key.as_str()) {
        return Ok(converted);
    }
    let raw: String = text(mlp_prefix).lit(".gate").done();
    let key: String = text(raw.as_str()).lit(".weight").done();
    if weights.contains_key(key.as_str()) {
        return Ok(raw);
    }
    Err(
        text("Bailing MoE router weight not found: expected ").lit(mlp_prefix).lit(
            ".gate.weight (raw checkpoint) or ",
        ).lit(mlp_prefix).lit(
            ".gate.gate_proj.weight (mlx-lm conversion, which renames the router into the gate_proj spelling the routed experts also use)",
        ).done(),
    )
}

/// Experts from number `e` on, each a projection of its own.
pub open spec fn expert_list(
    c: CheckpointView,
    mlp: Seq<char>,
    leaf: Seq<char>,
    n: nat,
    out_features: nat,
    in_features: nat,
    e: nat,
) -> Verdict
    decreases n - e,
{
    if e >= n {
        Verdict::Pass
    } else {
        after(
            c.projection(mlp + ".experts."@ + dec(e) + "."@ + leaf, out_features, in_features),
            expert_list(c, mlp, leaf, n, out_features, in_features, e + 1),
        )
    }
}

/// One projection of all experts: stacked where a stack is stored, else one tensor per expert.
pub open spec fn expert_leaf(
    c: CheckpointView,
    mlp: Seq<char>,
    leaf: Seq<char>,
    n: nat,
    out_features: nat,
    in_features: nat,
) -> Verdict {
    let stack = mlp + ".switch_mlp."@ + leaf;
    if c.weights.contains_key(stack + ".weight"@) {
        c.stacked(stack, n, out_features, in_features)
    } else {
        expert_list(c, mlp, leaf, n, out_features, in_features, 0)
    }
}

/// The three projections of all experts.
pub open spec fn experts_verdict(c: CheckpointView, mlp: Seq<char>, n: nat, hidden: nat, moe: nat) -> Verdict {
    after(expert_leaf(c, mlp, "gate_proj"@, n, moe, hidden),
    after(expert_leaf(c, mlp, "up_proj"@, n, moe, hidden),
        expert_leaf(c, mlp, "down_proj"@, n, hidden, moe)))
}

/// A sparse block: its router, the router's bias where that is enabled, and its experts.
pub open spec fn sparse_verdict(
    c: CheckpointView,
    mlp: Seq<char>,
    n: nat,
    hidden: nat,
    moe: nat,
    expert_bias: bool,
    shared: Option<nat>,
) -> Verdict {
    match router_key(c.weights, mlp) {
        Err(e) => Verdict::Fail(e),
        Ok(router) => {
            after(c.projection(router, n, hidden),
            after(if expert_bias { c.score_bias(mlp + ".gate.expert_bias"@, n) } else { Verdict::Pass },
            after(experts_verdict(c, mlp, n, hidden, moe),
                match shared {
                    Some(width) => c.mlp(mlp + ".shared_experts"@, hidden, width),
                    None => Verdict::Pass,
                })))
        },
    }
}

fn validate_expert_leaf(
    c: &Checkpoint<'_>,
    mlp: &str,
    leaf: &str,
    n: usize,
    out_features: usize,
    in_features: usize,
) -> (r: Outcome)
    ensures
        r@ == expert_leaf(c@, mlp@, leaf@, n as nat, out_features as nat, in_features as nat),
{
    let stack: String = text(mlp).lit(".switch_mlp.").lit(leaf).done();
    let key: String = text(stack.as_str()).lit(".weight").done();
    if c.weights.contains_key(key.as_str()) {
        return c.stacked(stack.as_str(), n, out_features, in_features);
    }
    let mut e: usize = 0;
    while e < n
        invariant
            e <= n,
            !c@.weights.contains_key(mlp@ + ".switch_mlp."@ + leaf@ + ".weight"@),
            expert_leaf(c@, mlp@, leaf@, n as nat, out_features as nat, in_features as nat)
                == expert_list(c@, mlp@, leaf@, n as nat, out_features as nat, in_features as nat, e as nat),
        decreases n - e,
    {
        let key: String = text(mlp).lit(".experts.").num(e).lit(".").lit(leaf).done();
        let r: Outcome = c.projection(key.as_str(), out_features, in_features);
        if !r.passed() { return r; }
        e = e + 1;
    }
    Outcome::Pass
}

fn validate_experts(c: &Checkpoint<'_>, mlp: &str, n: usize, hidden: usize, moe: usize) -> (r: Outcome)
    ensures r@ == experts_verdict(c@, mlp@, n as nat, hidden as nat, moe as nat),
{
    let r: Outcome = validate_expert_leaf(c, mlp, "gate_proj", n, moe, hidden);
    if !r.passed() { return r; }
    let r: Outcome = validate_expert_leaf(c, mlp, "up_proj", n, moe, hidden);
    if !r.passed() { return r; }
    validate_expert_leaf(c, mlp, "down_proj", n, hidden, moe)
}

/// Checks a sparse block.
pub fn validate_sparse(
    c: &Checkpoint<'_>,
    mlp: &str,
    n: usize,
    hidden: usize,
    moe: usize,
    expert_bias: bool,
    shared: Option<usize>,
) -> (r: Outcome)
    ensures
        r@ == sparse_verdict(
            c@,
            mlp@,
            n as nat,
            hidden as nat,
            moe as nat,
            expert_bias,
            match shared {
                Some(w) => Some(w as nat),
                None => None,
            },
        ),
{
    match router_prefix(c.weights, mlp) {
        Err(e) => Outcome::Fail(e),
        Ok(router) => {
            let r: Outcome = c.projection(router.as_str(), n, hidden);
            if !r.passed() { return r; }
            if expert_bias {
                let key: String = text(mlp).lit(".gate.expert_bias").done();
                let r: Outcome = c.score_bias(key.as_str(), n);
                if !r.passed() { return r; }
            }
            let r: Outcome = validate_experts(c, mlp, n, hidden, moe);
            if !r.passed() { return r; }
            match shared {
                Some(width) => {
                    let key: String = text(mlp).lit(".shared_experts").done();
                    c.mlp(key.as_str(), hidden, width)
                },
                None => Outcome::Pass,
            }
        },
    }
}

/// The feed-forward tensors of layer `i`, named under `mlp`.
pub open spec fn feed_forward_verdict(c: CheckpointView, args: ModelArgs, mlp: Seq<char>, i: nat) -> Verdict {
    if args.sparse(i as int) {
        sparse_verdict(
            c,
            mlp,
            args.spec_experts(),
            args.hidden_size as nat,
            args.spec_moe_width(),
            args.moe_router_enable_expert_bias,
            if args.spec_has_shared() { Some(args.spec_shared_width()) } else { None },
        )
    } else {
        c.mlp(mlp, args.hidden_size as nat, args.intermediate_size as nat)
    }
}

fn validate_feed_forward(c: &Checkpoint<'_>, args: &ModelArgs, mlp: &str, layer: usize) -> (r: Outcome)
    ensures r@ == feed_forward_verdict(c@, *args, mlp@, layer as nat),
{
    if args.is_moe_layer(layer) {
        let shared: Option<usize> = if args.has_shared_expert() {
            Some(args.shared_expert_intermediate_size())
        } else {
            None
        };
        validate_sparse(
            c,
            mlp,
            args.num_experts(),
            args.hidden_size,
            args.moe_intermediate_size(),
            args.moe_router_enable_expert_bias,
            shared,
        )
    } else {
        c.mlp(mlp, args.hidden_size, args.intermediate_size)
    }
}

/// The attention tensors of a layer, named under `a`.
pub open spec fn attention_verdict(c: CheckpointView, args: ModelArgs, a: Seq<char>) -> Verdict {
    let h = args.hidden_size as nat;
    let d = args.spec_head_dim();
    let q = (args.num_attention_heads * d) as nat;
    after(c.projection(a + ".query_key_value"@, args.spec_qkv_out(), h),
    after(c.projection(a + ".dense"@, h, q),
        if args.use_qk_norm {
            after(c.norm(a + ".query_layernorm.weight"@, d), c.norm(a + ".key_layernorm.weight"@, d))
        } else {
            Verdict::Pass
        }))
}

/// The tensors of layer `i`.
pub open spec fn layer_verdict(c: CheckpointView, args: ModelArgs, i: nat) -> Verdict {
    let p = layer_name(i);
    let h = args.hidden_size as nat;
    after(attention_verdict(c, args, p + ".attention"@),
    after(c.norm(p + ".input_layernorm.weight"@, h),
    after(c.norm(p + ".post_attention_layernorm.weight"@, h),
        feed_forward_verdict(c, args, p + ".mlp"@, i))))
}

/// The layers from `i` on.
pub open spec fn layers_verdict(c: CheckpointView, args: ModelArgs, i: nat) -> Verdict
    decreases args.num_hidden_layers - i,
{
    if i >= args.num_hidden_layers {
        Verdict::Pass
    } else {
        after(layer_verdict(c, args, i), layers_verdict(c, args, i + 1))
    }
}

/// A whole checkpoint.
pub open spec fn weights_verdict(c: CheckpointView, args: ModelArgs) -> Verdict {
    let h = args.hidden_size as nat;
    after(c.norm("model.norm.weight"@, h),
    after(c.packing("model.word_embeddings"@, h),
    after(if args.tie_word_embeddings { Verdict::Pass } else { c.projection("lm_head"@, args.vocab_size as nat, h) },
        layers_verdict(c, args, 0))))
}

fn validate_attention(c: &Checkpoint<'_>, args: &ModelArgs, attention: &str) -> (r: Outcome)
    requires args.sizable(),
    ensures r@ == attention_verdict(c@, *args, attention@),
{
    let hidden: usize = args.hidden_size;
    let head_dim: usize = args.head_dim();
    proof { lemma_sizable(*args); }
    let q_size: usize = args.num_attention_heads * head_dim;
    let key: String = text(attention).lit(".query_key_value").done();
    let r: Outcome = c.projection(key.as_str(), args.qkv_out_features(), hidden);
    if !r.passed() { return r; }
    let key: String = text(attention).lit(".dense").done();
    let r: Outcome = c.projection(key.as_str(), hidden, q_size);
    if !r.passed() { return r; }
    if args.use_qk_norm {
        let key: String = text(attention).lit(".query_layernorm.weight").done();
        let r: Outcome = c.norm(key.as_str(), head_dim);
        if !r.passed() { return r; }
        let key: String = text(attention).lit(".key_layernorm.weight").done();
        return c.norm(key.as_str(), head_dim);
    }
    Outcome::Pass
}

impl ModelArgs {
    /// The widths that the tensors are held against fit a `usize`.
    pub open spec fn sizable(&self) -> bool {
        &&& self.num_attention_heads > 0
        &&& self.num_attention_heads + 2 * self.spec_kv_heads() <= usize::MAX
        &&& self.spec_qkv_out() <= usize::MAX
    }
}

proof fn lemma_sizable(args: ModelArgs)
    requires args.sizable(),
    ensures args.num_attention_heads * args.spec_head_dim() <= usize::MAX,
{
    qkv_split_covers_the_projection(args);
    let k = args.spec_kv_heads() as int;
    let d = args.spec_head_dim() as int;
    assert(k * d >= 0) by (nonlinear_arith) requires k >= 0, d >= 0;
}

fn validate_layer(c: &Checkpoint<'_>, args: &ModelArgs, layer: usize) -> (r: Outcome)
    requires args.sizable(),
    ensures r@ == layer_verdict(c@, *args, layer as nat),
{
    let hidden: usize = args.hidden_size;
    let prefix: String = layer_prefix(layer);
    let attention: String = text(prefix.as_str()).lit(".attention").done();
    let r: Outcome = validate_attention(c, args, attention.as_str());
    if !r.passed() { return r; }
    let key: String = text(prefix.as_str()).lit(".input_layernorm.weight").done();
    let r: Outcome = c.norm(key.as_str(), hidden);
    if !r.passed() { return r; }
    let key: String = text(prefix.as_str()).lit(".post_attention_layernorm.weight").done();
    let r: Outcome = c.norm(key.as_str(), hidden);
    if !r.passed() { return r; }
    let mlp: String = text(prefix.as_str()).lit(".mlp").done();
    validate_feed_forward(c, args, mlp.as_str(), layer)
}

/// Rejects a checkpoint whose real tensor shapes disagree with the config, before any of them
/// reaches the engine. The packing of a quantized tensor is the engine's to judge: the outcome asks
/// for each judgement that is not among `answers`.
pub fn validate_weights(weights: &WeightMap, args: &ModelArgs, answers: &PackingAnswers) -> (r: Outcome)
    requires args.sizable(),
    ensures r@ == weights_verdict(checkpoint_view(weights@, answers@, *args), *args),
{
    let hidden: usize = args.hidden_size;
    let c: Checkpoint<'_> = Checkpoint {
        weights,
        answers,
        group_size: args.group_size(),
        bits: args.bits(),
        style: ProjectionStyle::Bailing,
    };
    let r: Outcome = c.norm("model.norm.weight", hidden);
    if !r.passed() { return r; }
    let r: Outcome = c.packing("model.word_embeddings", hidden);
    if !r.passed() { return r; }
    if !args.tie_word_embeddings {
        let r: Outcome = c.projection("lm_head", args.vocab_size, hidden);
        if !r.passed() { return r; }
    }
    let mut layer: usize = 0;
    while layer < args.num_hidden_layers
        invariant
            layer <= args.num_hidden_layers,
            args.sizable(),
            c@ == checkpoint_view(weights@, answers@, *args),
            weights_verdict(c@, *args) == layers_verdict(c@, *args, layer as nat),
        decreases args.num_hidden_layers - layer,
    {
        let r: Outcome = validate_layer(&c, args, layer);
        if !r.passed() { return r; }
        layer = layer + 1;
    }
    Outcome::Pass
}

proof fn lemma_expert_list_asks(
    c: CheckpointView,
    mlp: Seq<char>,
    leaf: Seq<char>,
    n: nat,
    out_features: nat,
    in_features: nat,
    e: nat,
)
    ensures asks_soundly(c, expert_list(c, mlp, leaf, n, out_features, in_features, e)),
    decreases n - e,
{
    if e < n {
        lemma_projection_asks(c, mlp + ".experts."@ + dec(e) + "."@ + leaf, out_features, in_features);
        lemma_expert_list_asks(c, mlp, leaf, n, out_features, in_features, e + 1);
    }
}

proof fn lemma_expert_leaf_asks(
    c: CheckpointView,
    mlp: Seq<char>,
    leaf: Seq<char>,
    n: nat,
    out_features: nat,
    in_features: nat,
)
    ensures asks_soundly(c, expert_leaf(c, mlp, leaf, n, out_features, in_features)),
{
    lemma_stacked_asks(c, mlp + ".switch_mlp."@ + leaf, n, out_features, in_features);
    lemma_expert_list_asks(c, mlp, leaf, n, out_features, in_features, 0);
}

/// A sparse block only asks about quantized tensors that have no answer yet.
pub proof fn lemma_sparse_asks(
    c: CheckpointView,
    mlp: Seq<char>,
    n: nat,
    hidden: nat,
    moe: nat,
    expert_bias: bool,
    shared: Option<nat>,
)
    ensures asks_soundly(c, sparse_verdict(c, mlp, n, hidden, moe, expert_bias, shared)),
{
    if let Ok(router) = router_key(c.weights, mlp) {
        lemma_projection_asks(c, router, n, hidden);
    }
    lemma_expert_leaf_asks(c, mlp, "gate_proj"@, n, moe, hidden);
    lemma_expert_leaf_asks(c, mlp, "up_proj"@, n, moe, hidden);
    lemma_expert_leaf_asks(c, mlp, "down_proj"@, n, hidden, moe);
    if let Some(width) = shared {
        lemma_mlp_asks(c, mlp + ".shared_experts"@, hidden, width);
    }
    assert(asks_soundly(c, experts_verdict(c, mlp, n, hidden, moe)));
}

proof fn lemma_feed_forward_asks(c: CheckpointView, args: ModelArgs, mlp: Seq<char>, i: nat)
    ensures asks_soundly(c, feed_forward_verdict(c, args, mlp, i)),
{
    lemma_mlp_asks(c, mlp, args.hidden_size as nat, args.intermediate_size as nat);
    lemma_sparse_asks(
        c,
        mlp,
        args.spec_experts(),
        args.hidden_size as nat,
        args.spec_moe_width(),
        args.moe_router_enable_expert_bias,
        if args.spec_has_shared() { Some(args.spec_shared_width()) } else { None },
    );
}

proof fn lemma_attention_asks(c: CheckpointView, args: ModelArgs, a: Seq<char>)
    ensures asks_soundly(c, attention_verdict(c, args, a)),
{
    let h = args.hidden_size as nat;
    lemma_projection_asks(c, a + ".query_key_value"@, args.spec_qkv_out(), h);
    lemma_projection_asks(c, a + ".dense"@, h, (args.num_attention_heads * args.spec_head_dim()) as nat);
}

proof fn lemma_layers_ask(c: CheckpointView, args: ModelArgs, i: nat)
    ensures asks_soundly(c, layers_verdict(c, args, i)),
    decreases args.num_hidden_layers - i,
{
    if i < args.num_hidden_layers {
        lemma_layers_ask(c, args, i + 1);
        lemma_attention_asks(c, args, layer_name(i) + ".attention"@);
        lemma_feed_forward_asks(c, args, layer_name(i) + ".mlp"@, i);
    }
}

/// The engine is only ever asked about a quantized tensor that it has not judged yet, and is handed
/// that tensor's own shapes.
pub proof fn questions_are_new(weights: Map<Seq<char>, Seq<i32>>, answers: Map<Seq<char>, Option<Seq<char>>>, args: ModelArgs)
    ensures
        asks_soundly(
            checkpoint_view(weights, answers, args),
            weights_verdict(checkpoint_view(weights, answers, args), args),
        ),
{
    lemma_layers_ask(checkpoint_view(weights, answers, args), args, 0);
}

proof fn lemma_layer_passes(c: CheckpointView, args: ModelArgs, from: nat, i: nat)
    requires
        layers_verdict(c, args, from) is Pass,
        from <= i < args.num_hidden_layers,
    ensures layer_verdict(c, args, i) is Pass,
    decreases i - from,
{
    if from < i {
        lemma_layer_passes(c, args, from + 1, i);
    }
}

/// One expert matrix of a block: a plane of the stack, or a tensor of its own.
pub open spec fn has_expert(c: CheckpointView, mlp: Seq<char>, leaf: Seq<char>, e: nat, out_features: nat) -> bool {
    let stack = mlp + ".switch_mlp."@ + leaf + ".weight"@;
    let single = mlp + ".experts."@ + dec(e) + "."@ + leaf + ".weight"@;
    if c.weights.contains_key(stack) {
        c.weights[stack].len() == 3 && e < c.weights[stack][0] && c.weights[stack][1] == out_features
    } else {
        c.weights.contains_key(single) && c.weights[single].len() == 2 && c.weights[single][0] == out_features
    }
}

proof fn lemma_expert_present(
    c: CheckpointView,
    mlp: Seq<char>,
    leaf: Seq<char>,
    n: nat,
    out_features: nat,
    in_features: nat,
    from: nat,
    e: nat,
)
    requires
        expert_list(c, mlp, leaf, n, out_features, in_features, from) is Pass,
        from <= e < n,
    ensures c.projection(mlp + ".experts."@ + dec(e) + "."@ + leaf, out_features, in_features) is Pass,
    decreases e - from,
{
    if from < e {
        lemma_expert_present(c, mlp, leaf, n, out_features, in_features, from + 1, e);
    }
}

/// In a sparse block that passes, every expert index that the router can emit has its matrices.
pub proof fn lemma_sparse_complete(
    c: CheckpointView,
    mlp: Seq<char>,
    n: nat,
    hidden: nat,
    moe: nat,
    expert_bias: bool,
    shared: Option<nat>,
    e: nat,
)
    requires
        sparse_verdict(c, mlp, n, hidden, moe, expert_bias, shared) is Pass,
        e < n,
    ensures
        has_expert(c, mlp, "gate_proj"@, e, moe),
        has_expert(c, mlp, "up_proj"@, e, moe),
        has_expert(c, mlp, "down_proj"@, e, hidden),
        router_key(c.weights, mlp) is Ok,
{
    assert(experts_verdict(c, mlp, n, hidden, moe) is Pass);
    lemma_leaf_complete(c, mlp, "gate_proj"@, n, moe, hidden, e);
    lemma_leaf_complete(c, mlp, "up_proj"@, n, moe, hidden, e);
    lemma_leaf_complete(c, mlp, "down_proj"@, n, hidden, moe, e);
}

proof fn lemma_leaf_complete(
    c: CheckpointView,
    mlp: Seq<char>,
    leaf: Seq<char>,
    n: nat,
    out_features: nat,
    in_features: nat,
    e: nat,
)
    requires
        expert_leaf(c, mlp, leaf, n, out_features, in_features) is Pass,
        e < n,
    ensures has_expert(c, mlp, leaf, e, out_features),
{
    if !c.weights.contains_key(mlp + ".switch_mlp."@ + leaf + ".weight"@) {
        lemma_expert_present(c, mlp, leaf, n, out_features, in_features, 0, e);
    }
}

/// In a checkpoint that passes, every sparse layer holds every expert that its router can emit, not
/// only the first.
pub proof fn passing_experts_are_complete(c: CheckpointView, args: ModelArgs, i: nat, e: nat)
    requires
        weights_verdict(c, args) is Pass,
        i < args.num_hidden_layers,
        args.sparse(i as int),
        e < args.spec_experts(),
    ensures
        has_expert(c, layer_name(i) + ".mlp"@, "gate_proj"@, e, args.spec_moe_width()),
        has_expert(c, layer_name(i) + ".mlp"@, "up_proj"@, e, args.spec_moe_width()),
        has_expert(c, layer_name(i) + ".mlp"@, "down_proj"@, e, args.hidden_size as nat),
{
    lemma_layer_passes(c, args, 0, i);
    lemma_sparse_complete(
        c,
        layer_name(i) + ".mlp"@,
        args.spec_experts(),
        args.hidden_size as nat,
        args.spec_moe_width(),
        args.moe_router_enable_expert_bias,
        if args.spec_has_shared() { Some(args.spec_shared_width()) } else { None },
        e,
    );
}

/// The router of a block is never one of its experts, though a converted checkpoint spells both
/// `gate_proj`.
pub proof fn router_is_never_an_expert(weights: Map<Seq<char>, Seq<i32>>, mlp: Seq<char>, leaf: Seq<char>, e: nat)
    ensures
        router_key(weights, mlp) matches Ok(router) ==> {
            &&& router != mlp + ".experts."@ + dec(e) + "."@ + leaf
            &&& router != mlp + ".switch_mlp."@ + leaf
        },
{
    reveal_strlit(".gate.gate_proj");
    reveal_strlit(".gate");
    reveal_strlit(".experts.");
    reveal_strlit(".switch_mlp.");
    let a = mlp + ".experts."@ + dec(e) + "."@ + leaf;
    let b = mlp + ".switch_mlp."@ + leaf;
    let n = mlp.len() as int + 1;
    assert(a[n] == 'e');
    assert(b[n] == 's');
    assert((mlp + ".gate"@)[n] == 'g');
    assert((mlp + ".gate.gate_proj"@)[n] == 'g');
}


/// The load step of the output projection: normalized first under `norm_head`, which a quantized
/// head refuses.
pub open spec fn head_step(weights: Map<Seq<char>, Seq<i32>>, norm_head: bool, family: Seq<char>) -> StepView {
    if !norm_head {
        StepView { kind: StepKind::Linear, key: "lm_head"@ }
    } else if weights.contains_key("lm_head.scales"@) {
        StepView {
            kind: StepKind::Refuse,
            key: family
                + " config sets norm_head: true, but lm_head is quantized. norm_head L2-normalizes the raw lm_head weight along axis 0, and the stored tensor is a packed bit field rather than the weight itself, so applying the normalization to it would corrupt every logit. Dequantize the head or clear norm_head."@,
        }
    } else if !weights.contains_key("lm_head.weight"@) {
        StepView { kind: StepKind::Refuse, key: missing_text("lm_head.weight"@) }
    } else {
        StepView { kind: StepKind::NormalizedHead, key: "lm_head"@ }
    }
}

/// Adds the load step of the output projection.
pub fn load_lm_head(weights: &WeightMap, norm_head: bool, family: &str, steps: &mut Steps)
    ensures final(steps)@ == old(steps)@.push(head_step(weights@, norm_head, family@)),
{
    if !norm_head {
        steps.push(StepKind::Linear, "lm_head".to_owned());
    } else if weights.contains_key("lm_head.scales") {
        steps.push(
            StepKind::Refuse,
            text(family).lit(
                " config sets norm_head: true, but lm_head is quantized. norm_head L2-normalizes the raw lm_head weight along axis 0, and the stored tensor is a packed bit field rather than the weight itself, so applying the normalization to it would corrupt every logit. Dequantize the head or clear norm_head.",
            ).done(),
        );
    } else if !weights.contains_key("lm_head.weight") {
        steps.push(StepKind::Refuse, missing("lm_head.weight"));
    } else {
        steps.push(StepKind::NormalizedHead, "lm_head".to_owned());
    }
}

/// The parameters of a router.
pub struct GateArgs<'a> {
    pub num_experts: usize,
    pub expert_bias: bool,
    pub num_experts_per_tok: usize,
    pub n_group: usize,
    pub topk_group: usize,
    pub routed_scaling_factor: &'a Single,
    pub norm_topk_prob: bool,
    pub score_function: ScoreFunction,
}

/// Bits of the single nearest to 1e-20, which keeps the divisor of the selected weights off zero.
pub const TINY_BITS: u32 = 0x1e3c_e508;

/// A router.
#[derive(Debug)]
pub struct BailingMoeGate {
    /// The prefix of its projection.
    pub gate_proj: String,
    /// Length of the selection-only bias, where the config enables one; a checkpoint that ships no
    /// tensor routes with zeros.
    pub expert_bias: Option<i32>,
    pub top_k: i32,
    pub n_group: i32,
    pub topk_group: i32,
    pub routed_scaling_factor: Single,
    pub norm_topk_prob: bool,
    pub score_function: ScoreFunction,
}

/// The load steps of a router.
pub open spec fn gate_steps(
    s: Seq<StepView>,
    weights: Map<Seq<char>, Seq<i32>>,
    mlp: Seq<char>,
    expert_bias: bool,
) -> Seq<StepView> {
    match router_key(weights, mlp) {
        Ok(router) => {
            let s = step(s, StepKind::Linear, router);
            if expert_bias { step(s, StepKind::OptionalTensor, mlp + ".gate.expert_bias"@) } else { s }
        },
        Err(_) => s,
    }
}

impl BailingMoeGate {
    /// The router that the parameters describe.
    pub open spec fn follows(&self, g: GateArgs<'_>) -> bool {
        &&& self.expert_bias == (if g.expert_bias { Some(g.num_experts as i32) } else { None })
        &&& self.top_k == g.num_experts_per_tok as i32
        &&& self.n_group == g.n_group as i32
        &&& self.topk_group == (if g.topk_group > i32::MAX { i32::MAX } else { g.topk_group as i32 })
        &&& self.routed_scaling_factor.is_copy_of(*g.routed_scaling_factor)
        &&& self.norm_topk_prob == g.norm_topk_prob
        &&& self.score_function == g.score_function
    }

    pub open spec fn spec_route(&self, n_experts: i32) -> RoutePlan {
        let kth = if n_experts - self.top_k > 0 { (n_experts - self.top_k) as i32 } else { 0 };
        RoutePlan {
            scoring: if self.score_function == ScoreFunction::Sigmoid { Scoring::Sigmoid } else { Scoring::Softmax },
            selected_by: if self.expert_bias is Some { Basis::BiasedScore } else { Basis::Score },
            weighed_by: Basis::Score,
            groups: if self.n_group > 1 { Some((self.n_group, self.topk_group)) } else { None },
            descending: false,
            kth,
            first: kth,
            stop: -1i32,
            divisor: if self.top_k > 1 && self.norm_topk_prob { Some(Divisor::SumPlus(TINY_BITS)) } else { None },
            scale: Some(self.routed_scaling_factor.bits),
            weights_in: Precision::Logits,
        }
    }

    /// How the experts of each token are picked from a row of `n_experts` scores. The bias enters
    /// the selection only; the weights are gathered from the unbiased scores, scaled in every case,
    /// and come back in the precision of the logits.
    pub fn forward(&self, n_experts: i32) -> (r: RoutePlan)
        requires i32::MIN <= n_experts - self.top_k <= i32::MAX,
        ensures r == self.spec_route(n_experts),
    {
        let kth: i32 = if n_experts - self.top_k > 0 { n_experts - self.top_k } else { 0 };
        let groups: Option<(i32, i32)> = if self.n_group > 1 {
            Some((self.n_group, self.topk_group))
        } else {
            None
        };
        RoutePlan {
            scoring: if self.score_function == ScoreFunction::Sigmoid { Scoring::Sigmoid } else { Scoring::Softmax },
            selected_by: if self.expert_bias.is_some() { Basis::BiasedScore } else { Basis::Score },
            weighed_by: Basis::Score,
            groups,
            descending: false,
            kth,
            first: kth,
            stop: -1,
            divisor: if self.top_k > 1 && self.norm_topk_prob { Some(Divisor::SumPlus(TINY_BITS)) } else { None },
            scale: Some(self.routed_scaling_factor.bits),
            weights_in: Precision::Logits,
        }
    }

    /// The router under `mlp_prefix`, with its load steps.
    pub fn load(weights: &WeightMap, g: &GateArgs<'_>, mlp_prefix: &str, steps: &mut Steps) -> (r: Result<Self, String>)
        ensures
            match r {
                Ok(gate) => {
                    &&& router_key(weights@, mlp_prefix@) == Ok::<Seq<char>, Seq<char>>(gate.gate_proj@)
                    &&& gate.follows(*g)
                },
                Err(e) => router_key(weights@, mlp_prefix@) == Err::<Seq<char>, Seq<char>>(e@),
            },
            final(steps)@ == gate_steps(old(steps)@, weights@, mlp_prefix@, g.expert_bias),
    {
        let prefix: String = match router_prefix(weights, mlp_prefix) {
            Ok(p) => p,
            Err(e) => {
                return Err(e);
            },
        };
        steps.push(StepKind::Linear, prefix.clone());
        let expert_bias: Option<i32> = if g.expert_bias {
            steps.push(StepKind::OptionalTensor, text(mlp_prefix).lit(".gate.expert_bias").done());
            Some(g.num_experts as i32)
        } else {
            None
        };
        Ok(
            BailingMoeGate {
                gate_proj: prefix,
                expert_bias,
                top_k: g.num_experts_per_tok as i32,
                n_group: g.n_group as i32,
                topk_group: if g.topk_group > i32::MAX as usize { i32::MAX } else { g.topk_group as i32 },
                routed_scaling_factor: g.routed_scaling_factor.copy(),
                norm_topk_prob: g.norm_topk_prob,
                score_function: g.score_function,
            },
        )
    }

    /// The router of a config, with its load steps.
    pub fn from_weights(weights: &WeightMap, args: &ModelArgs, mlp_prefix: &str, steps: &mut Steps) -> (r: Result<Self, String>)
        ensures
            match r {
                Ok(gate) => {
                    &&& router_key(weights@, mlp_prefix@) == Ok::<Seq<char>, Seq<char>>(gate.gate_proj@)
                    &&& gate.follows(args.gate_args())
                },
                Err(e) => router_key(weights@, mlp_prefix@) == Err::<Seq<char>, Seq<char>>(e@),
            },
            final(steps)@ == gate_steps(old(steps)@, weights@, mlp_prefix@, args.moe_router_enable_expert_bias),
    {
        let g: GateArgs<'_> = GateArgs {
            num_experts: args.num_experts(),
            expert_bias: args.moe_router_enable_expert_bias,
            num_experts_per_tok: args.num_experts_per_tok,
            n_group: args.n_group,
            topk_group: args.topk_group,
            routed_scaling_factor: &args.routed_scaling_factor,
            norm_topk_prob: args.norm_topk_prob,
            score_function: args.score_function(),
        };
        BailingMoeGate::load(weights, &g, mlp_prefix, steps)
    }
}

impl ModelArgs {
    /// The parameters of the router.
    pub open spec fn gate_args(&self) -> GateArgs<'_> {
        GateArgs {
            num_experts: self.spec_experts() as usize,
            expert_bias: self.moe_router_enable_expert_bias,
            num_experts_per_tok: self.num_experts_per_tok,
            n_group: self.n_group,
            topk_group: self.topk_group,
            routed_scaling_factor: &self.routed_scaling_factor,
            norm_topk_prob: self.norm_topk_prob,
            score_function: self.spec_score_function(),
        }
    }
}

/// The load steps of a SwiGLU block.
pub open spec fn mlp_steps(s: Seq<StepView>, prefix: Seq<char>) -> Seq<StepView> {
    let s = step(s, StepKind::Linear, prefix + ".gate_proj"@);
    let s = step(s, StepKind::Linear, prefix + ".up_proj"@);
    step(s, StepKind::Linear, prefix + ".down_proj"@)
}

/// A SwiGLU block.
#[derive(Clone, Copy, Debug)]
pub struct BailingMoeMLP {}

impl BailingMoeMLP {
    /// The block with its load steps.
    pub fn from_weights(prefix: &str, steps: &mut Steps) -> (r: Self)
        ensures final(steps)@ == mlp_steps(old(steps)@, prefix@),
    {
        steps.push(StepKind::Linear, text(prefix).lit(".gate_proj").done());
        steps.push(StepKind::Linear, text(prefix).lit(".up_proj").done());
        steps.push(StepKind::Linear, text(prefix).lit(".down_proj").done());
        BailingMoeMLP {}
    }
}

/// A sparse block: a router over routed experts, with an optional shared expert beside them at a
/// fixed weight of one.
#[derive(Debug)]
pub struct BailingMoeSparseBlock {
    pub gate: BailingMoeGate,
    pub shared_experts: Option<BailingMoeMLP>,
}

/// The load steps of a sparse block.
pub open spec fn sparse_steps(
    s: Seq<StepView>,
    weights: Map<Seq<char>, Seq<i32>>,
    prefix: Seq<char>,
    expert_bias: bool,
    shared: bool,
) -> Seq<StepView> {
    let s = gate_steps(s, weights, prefix, expert_bias);
    let s = step(s, StepKind::Experts, prefix + ".switch_mlp"@);
    if shared { mlp_steps(s, prefix + ".shared_experts"@) } else { s }
}

impl BailingMoeSparseBlock {
    /// How the block flattens its input.
    pub fn forward(&self, x: &Vec<i32>) -> (r: FlatPlan)
        requires
            x@.len() >= 2,
            countable(x@.drop_last()),
        ensures
            r == flat_plan(x@),
    {
        flatten(x)
    }

    /// The block under `prefix`, with its load steps.
    pub fn load(weights: &WeightMap, g: &GateArgs<'_>, shared: bool, prefix: &str, steps: &mut Steps) -> (r: Result<Self, String>)
        ensures
            match r {
                Ok(block) => {
                    &&& router_key(weights@, prefix@) == Ok::<Seq<char>, Seq<char>>(block.gate.gate_proj@)
                    &&& block.gate.follows(*g)
                    &&& block.shared_experts is Some <==> shared
                    &&& final(steps)@ == sparse_steps(old(steps)@, weights@, prefix@, g.expert_bias, shared)
                },
                Err(e) => router_key(weights@, prefix@) == Err::<Seq<char>, Seq<char>>(e@)
                    && final(steps)@ == old(steps)@,
            },
    {
        let gate: BailingMoeGate = match BailingMoeGate::load(weights, g, prefix, steps) {
            Ok(gate) => gate,
            Err(e) => {
                return Err(e);
            },
        };
        steps.push(StepKind::Experts, text(prefix).lit(".switch_mlp").done());
        let shared_experts: Option<BailingMoeMLP> = if shared {
            let key: String = text(prefix).lit(".shared_experts").done();
            Some(BailingMoeMLP::from_weights(key.as_str(), steps))
        } else {
            None
        };
        Ok(BailingMoeSparseBlock { gate, shared_experts })
    }
}

/// Either the dense prefix MLP or the sparse block, per layer.
#[derive(Debug)]
pub enum FeedForward {
    Dense(BailingMoeMLP),
    Sparse(BailingMoeSparseBlock),
}

/// One attention block over a fused projection.
#[derive(Debug)]
pub struct Attention {
    /// Whether queries and keys are normalized per head.
    pub qk_norm: bool,
    pub num_heads: i32,
    pub num_kv_heads: i32,
    pub head_dim: i32,
    pub rope_dims: i32,
    pub rope_base: Single,
}

/// The load steps of an attention block.
pub open spec fn attention_steps(s: Seq<StepView>, prefix: Seq<char>, qk_norm: bool) -> Seq<StepView> {
    let s = step(s, StepKind::Linear, prefix + ".query_key_value"@);
    let s = step(s, StepKind::Linear, prefix + ".dense"@);
    if qk_norm {
        step(
            step(s, StepKind::Tensor, prefix + ".query_layernorm.weight"@),
            StepKind::Tensor,
            prefix + ".key_layernorm.weight"@,
        )
    } else {
        s
    }
}

/// Adds the load steps of an attention block.
pub fn load_attention(prefix: &str, qk_norm: bool, steps: &mut Steps)
    ensures final(steps)@ == attention_steps(old(steps)@, prefix@, qk_norm),
{
    steps.push(StepKind::Linear, text(prefix).lit(".query_key_value").done());
    steps.push(StepKind::Linear, text(prefix).lit(".dense").done());
    if qk_norm {
        steps.push(StepKind::Tensor, text(prefix).lit(".query_layernorm.weight").done());
        steps.push(StepKind::Tensor, text(prefix).lit(".key_layernorm.weight").done());
    }
}

/// The cut of a fused projection and the split into heads, for blocks with fused projections.
pub open spec fn fused_plan(
    x: Seq<i32>,
    heads: i32,
    kv_heads: i32,
    head_dim: i32,
    rope: Rope,
) -> (QkvCut, HeadPlan) {
    let q = heads * head_dim;
    let kv = kv_heads * head_dim;
    (
        QkvCut { q_end: q as i32, k_end: (q + kv) as i32, v_end: (q + 2 * kv) as i32 },
        HeadPlan {
            batch: x[0],
            length: x[1],
            q_heads: heads,
            kv_heads,
            head_dim,
            rope: Some(rope),
            width: q as i32,
        },
    )
}

/// Head counts and width whose fused projection fits an `i32`.
pub open spec fn fused_fits(heads: i32, kv_heads: i32, head_dim: i32) -> bool {
    &&& heads >= 0 && kv_heads >= 0 && head_dim >= 0
    &&& heads * head_dim + 2 * (kv_heads * head_dim) <= i32::MAX
}

/// The cut of a fused projection and the split into heads.
pub fn plan_fused(x: &Vec<i32>, heads: i32, kv_heads: i32, head_dim: i32, rope: Rope) -> (r: (QkvCut, HeadPlan))
    requires
        x@.len() >= 2,
        fused_fits(heads, kv_heads, head_dim),
    ensures r == fused_plan(x@, heads, kv_heads, head_dim, rope),
{
    proof {
        assert(heads * head_dim >= 0) by (nonlinear_arith) requires heads >= 0, head_dim >= 0;
        assert(kv_heads * head_dim >= 0) by (nonlinear_arith) requires kv_heads >= 0, head_dim >= 0;
    }
    let q: i32 = heads * head_dim;
    let kv: i32 = kv_heads * head_dim;
    (
        QkvCut { q_end: q, k_end: q + kv, v_end: q + 2 * kv },
        HeadPlan {
            batch: x[0],
            length: x[1],
            q_heads: heads,
            kv_heads,
            head_dim,
            rope: Some(rope),
            width: q,
        },
    )
}

impl Attention {
    /// The cut of the fused projection of `[batch, length, hidden]`, the head split, and the
    /// rotation from `offset` on.
    pub fn forward(&self, x: &Vec<i32>, offset: i32) -> (r: (QkvCut, HeadPlan))
        requires
            x@.len() >= 2,
            fused_fits(self.num_heads, self.num_kv_heads, self.head_dim),
        ensures
            r == fused_plan(
                x@,
                self.num_heads,
                self.num_kv_heads,
                self.head_dim,
                Rope { dims: self.rope_dims, traditional: false, offset },
            ),
    {
        plan_fused(
            x,
            self.num_heads,
            self.num_kv_heads,
            self.head_dim,
            Rope { dims: self.rope_dims, traditional: false, offset },
        )
    }

    /// The kernel that reads the cached keys.
    pub fn attend(&self, length: i32, has_mask: bool) -> (r: AttendPlan)
        ensures r == causal_unless_masked(length, has_mask, 0),
    {
        attend_causal(length, has_mask, 0)
    }

    /// The block that a config describes.
    pub open spec fn follows(&self, args: ModelArgs) -> bool {
        &&& self.qk_norm == args.use_qk_norm
        &&& self.num_heads == args.num_attention_heads as i32
        &&& self.num_kv_heads == args.spec_kv_heads() as usize as i32
        &&& self.head_dim == args.spec_head_dim() as usize as i32
        &&& self.rope_dims == args.spec_rope_dims()
        &&& self.rope_base.is_copy_of(args.rope_theta)
    }

    /// The block that a config describes, with its load steps.
    pub fn from_weights(args: &ModelArgs, prefix: &str, steps: &mut Steps) -> (r: Self)
        requires args.num_attention_heads > 0,
        ensures
            r.follows(*args),
            final(steps)@ == attention_steps(old(steps)@, prefix@, args.use_qk_norm),
    {
        load_attention(prefix, args.use_qk_norm, steps);
        Attention {
            qk_norm: args.use_qk_norm,
            num_heads: args.num_attention_heads as i32,
            num_kv_heads: args.num_kv_heads() as i32,
            head_dim: args.head_dim() as i32,
            rope_dims: args.rope_dims(),
            rope_base: args.rope_theta.copy(),
        }
    }
}

/// One decoder block.
#[derive(Debug)]
pub struct DecoderLayer {
    pub attention: Attention,
    pub mlp: FeedForward,
}

/// The load steps of layer `i`.
pub open spec fn layer_steps(s: Seq<StepView>, weights: Map<Seq<char>, Seq<i32>>, args: ModelArgs, i: nat) -> Seq<StepView> {
    let p = layer_name(i);
    let s = attention_steps(s, p + ".attention"@, args.use_qk_norm);
    let s = if args.sparse(i as int) {
        sparse_steps(s, weights, p + ".mlp"@, args.moe_router_enable_expert_bias, args.spec_has_shared())
    } else {
        mlp_steps(s, p + ".mlp"@)
    };
    let s = step(s, StepKind::Tensor, p + ".input_layernorm.weight"@);
    step(s, StepKind::Tensor, p + ".post_attention_layernorm.weight"@)
}

impl DecoderLayer {
    /// Layer `i` as the config describes it.
    pub open spec fn describes(&self, args: ModelArgs, i: int) -> bool {
        &&& self.attention.follows(args)
        &&& self.mlp is Sparse <==> args.sparse(i)
        &&& self.mlp matches FeedForward::Sparse(b) ==> {
            &&& b.gate.follows(args.gate_args())
            &&& b.shared_experts is Some <==> args.spec_has_shared()
        }
    }

    /// A sparse layer `i` reads its router from where the checkpoint stores it.
    pub open spec fn finds_router(&self, weights: Map<Seq<char>, Seq<i32>>, i: int) -> bool {
        self.mlp matches FeedForward::Sparse(b) ==> router_key(weights, layer_name(i as nat) + ".mlp"@)
            == Ok::<Seq<char>, Seq<char>>(b.gate.gate_proj@)
    }

    /// The layer that a config describes, with its load steps. Where the router is not there, the
    /// steps before it are still added: one of them that fails ends the load first.
    pub fn from_weights(weights: &WeightMap, args: &ModelArgs, layer_idx: usize, steps: &mut Steps) -> (r: Result<Self, String>)
        requires args.num_attention_heads > 0,
        ensures
            match r {
                Ok(layer) => {
                    &&& layer.describes(*args, layer_idx as int)
                    &&& layer.finds_router(weights@, layer_idx as int)
                    &&& final(steps)@ == layer_steps(old(steps)@, weights@, *args, layer_idx as nat)
                },
                Err(e) => {
                    &&& args.sparse(layer_idx as int)
                    &&& router_key(weights@, layer_name(layer_idx as nat) + ".mlp"@) == Err::<Seq<char>, Seq<char>>(e@)
                    &&& final(steps)@ == attention_steps(
                        old(steps)@,
                        layer_name(layer_idx as nat) + ".attention"@,
                        args.use_qk_norm,
                    )
                },
            },
    {
        let prefix: String = layer_prefix(layer_idx);
        let attention_key: String = text(prefix.as_str()).lit(".attention").done();
        let mlp_key: String = text(prefix.as_str()).lit(".mlp").done();
        let attention: Attention = Attention::from_weights(args, attention_key.as_str(), steps);
        let mlp: FeedForward = if args.is_moe_layer(layer_idx) {
            let g: GateArgs<'_> = GateArgs {
                num_experts: args.num_experts(),
                expert_bias: args.moe_router_enable_expert_bias,
                num_experts_per_tok: args.num_experts_per_tok,
                n_group: args.n_group,
                topk_group: args.topk_group,
                routed_scaling_factor: &args.routed_scaling_factor,
                norm_topk_prob: args.norm_topk_prob,
                score_function: args.score_function(),
            };
            match BailingMoeSparseBlock::load(weights, &g, args.has_shared_expert(), mlp_key.as_str(), steps) {
                Ok(block) => FeedForward::Sparse(block),
                Err(e) => {
                    return Err(e);
                },
            }
        } else {
            FeedForward::Dense(BailingMoeMLP::from_weights(mlp_key.as_str(), steps))
        };
        steps.push(StepKind::Tensor, text(prefix.as_str()).lit(".input_layernorm.weight").done());
        steps.push(StepKind::Tensor, text(prefix.as_str()).lit(".post_attention_layernorm.weight").done());
        Ok(DecoderLayer { attention, mlp })
    }
}

/// The load steps of the first `n` layers, behind the embedding table.
pub open spec fn stack_steps(weights: Map<Seq<char>, Seq<i32>>, args: ModelArgs, n: nat) -> Seq<StepView>
    decreases n,
{
    if n == 0 {
        step(Seq::empty(), StepKind::Embedding, "model.word_embeddings"@)
    } else {
        layer_steps(stack_steps(weights, args, (n - 1) as nat), weights, args, (n - 1) as nat)
    }
}

/// The load steps of a whole model.
pub open spec fn model_steps(weights: Map<Seq<char>, Seq<i32>>, args: ModelArgs) -> Seq<StepView> {
    let s = step(
        stack_steps(weights, args, args.num_hidden_layers as nat),
        StepKind::Tensor,
        "model.norm.weight"@,
    );
    if args.tie_word_embeddings { s } else { s.push(head_step(weights, args.norm_head, "Bailing MoE"@)) }
}

/// Bailing MoE.
#[derive(Debug)]
pub struct BailingMoeModel {
    pub layers: Vec<DecoderLayer>,
    /// Whether the output projection is the embedding table.
    pub tied: bool,
    pub eos_token_ids: Vec<i32>,
}

impl BailingMoeModel {
    /// The number of layers, each with a cache of its own.
    pub fn num_layers(&self) -> (r: usize)
        ensures r == self.layers@.len(),
    {
        self.layers.len()
    }

    /// Validates the config and the checkpoint, and lays out the model with its load steps.
    pub fn from_weights(
        weights: &WeightMap,
        args: &ModelArgs,
        answers: &PackingAnswers,
        refusal: Option<&str>,
    ) -> (r: Build<BailingMoeModel>)
        ensures
            match r {
                Build::Refused(e) => args.finding(refusal) == Err::<(), Seq<char>>(e@) || (
                    args.finding(refusal) is Ok
                        && weights_verdict(checkpoint_view(weights@, answers@, *args), *args) == Verdict::Fail(e@)),
                Build::Ask(q) => args.finding(refusal) is Ok
                    && weights_verdict(checkpoint_view(weights@, answers@, *args), *args) == Verdict::Ask(q@),
                Build::Ready(m, s) => {
                    &&& args.finding(refusal) is Ok
                    &&& weights_verdict(checkpoint_view(weights@, answers@, *args), *args) is Pass
                    &&& s@ == model_steps(weights@, *args)
                    &&& m.layers@.len() == args.num_hidden_layers
                    &&& forall|i: int| 0 <= i < m.layers@.len() ==> (#[trigger] m.layers@[i]).describes(*args, i)
                    &&& forall|i: int| 0 <= i < m.layers@.len() ==> (#[trigger] m.layers@[i]).finds_router(weights@, i)
                    &&& m.tied == args.tie_word_embeddings
                    &&& m.eos_token_ids@ == args.spec_eos()
                },
            },
    {
        match args.validate(refusal) {
            Err(e) => {
                return Build::Refused(e);
            },
            Ok(_) => {},
        }
        proof {
            validated_config_is_usable(*args, refusal);
            usable_widths_are_small(*args);
        }
        match validate_weights(weights, args, answers) {
            Outcome::Pass => {},
            Outcome::Fail(e) => {
                return Build::Refused(e);
            },
            Outcome::Ask(q) => {
                return Build::Ask(q);
            },
        }
        let ghost c = checkpoint_view(weights@, answers@, *args);
        let mut steps: Steps = Steps::new();
        steps.push(StepKind::Embedding, "model.word_embeddings".to_owned());
        let mut layers: Vec<DecoderLayer> = Vec::new();
        let mut i: usize = 0;
        while i < args.num_hidden_layers
            invariant
                i <= args.num_hidden_layers,
                args.num_attention_heads > 0,
                c.weights == weights@,
                weights_verdict(c, *args) is Pass,
                layers@.len() == i,
                steps@ == stack_steps(weights@, *args, i as nat),
                forall|j: int| 0 <= j < i ==> (#[trigger] layers@[j]).describes(*args, j),
                forall|j: int| 0 <= j < i ==> (#[trigger] layers@[j]).finds_router(weights@, j),
            decreases args.num_hidden_layers - i,
        {
            proof { lemma_layer_passes(c, *args, 0, i as nat); }
            match DecoderLayer::from_weights(weights, args, i, &mut steps) {
                Ok(layer) => layers.push(layer),
                Err(e) => {
                    assert(false);
                    return Build::Refused(e);
                },
            }
            i = i + 1;
        }
        steps.push(StepKind::Tensor, "model.norm.weight".to_owned());
        if !args.tie_word_embeddings {
            load_lm_head(weights, args.norm_head, "Bailing MoE", &mut steps);
        }
        let model: BailingMoeModel = BailingMoeModel {
            layers,
            tied: args.tie_word_embeddings,
            eos_token_ids: args.eos_token_ids(),
        };
        Build::Ready(model, steps)
    }
}

/// Under a valid config an attention block cuts and splits its fused projection without overflow,
/// its cut ends where the checked projection ends, and it rotates an even number of channels that
/// the head has.
pub proof fn valid_attention_fits(args: ModelArgs, a: Attention)
    requires
        args.usable(),
        a.follows(args),
    ensures
        fused_fits(a.num_heads, a.num_kv_heads, a.head_dim),
        a.num_heads * a.head_dim + 2 * (a.num_kv_heads * a.head_dim) == args.spec_qkv_out(),
        2 <= a.rope_dims <= a.head_dim,
        a.rope_dims % 2 == 0,
{
    usable_widths_are_small(args);
    qkv_split_covers_the_projection(args);
    let h = args.num_attention_heads as int;
    let n = args.hidden_size as int;
    vstd::arithmetic::div_mod::lemma_div_is_ordered_by_denominator(n, 1, h);
}

/// Under a valid config the pivot of every router stays inside its row, and exactly the configured
/// number of experts is selected, those with the largest entries.
pub proof fn valid_route_stays_in_range(args: ModelArgs, g: BailingMoeGate)
    requires
        args.usable(),
        args.spec_experts() > 0,
        g.follows(args.gate_args()),
    ensures
        g.top_k == args.num_experts_per_tok,
        g.spec_route(args.spec_experts() as i32).picks_largest(
            args.spec_experts() as int,
            args.num_experts_per_tok as int,
        ),
{
}

/// The routed scaling flag changes nothing: two configs that differ in it alone route alike, and
/// both scale the selected weights.
pub proof fn routed_scaling_flag_changes_nothing(args: ModelArgs, flag: bool, g: BailingMoeGate, n_experts: i32)
    requires
        g.follows((ModelArgs { moe_router_enable_routed_scaling: flag, ..args }).gate_args()),
    ensures
        g.follows(args.gate_args()),
        g.spec_route(n_experts).scale == Some(args.routed_scaling_factor.bits),
{
}

pub proof fn lemma_mlp_served(c: CheckpointView, s: Seq<StepView>, prefix: Seq<char>, hidden: nat, intermediate: nat)
    requires
        all_served(s, c.weights),
        c.mlp(prefix, hidden, intermediate) is Pass,
    ensures
        all_served(mlp_steps(s, prefix), c.weights),
{
}

pub proof fn lemma_sparse_served(
    c: CheckpointView,
    s: Seq<StepView>,
    mlp: Seq<char>,
    n: nat,
    hidden: nat,
    moe: nat,
    expert_bias: bool,
    shared: Option<nat>,
)
    requires
        all_served(s, c.weights),
        sparse_verdict(c, mlp, n, hidden, moe, expert_bias, shared) is Pass,
    ensures
        all_served(sparse_steps(s, c.weights, mlp, expert_bias, shared is Some), c.weights),
{
    let t = gate_steps(s, c.weights, mlp, expert_bias);
    assert(all_served(t, c.weights));
    let t = step(t, StepKind::Experts, mlp + ".switch_mlp"@);
    assert(all_served(t, c.weights));
    if let Some(width) = shared {
        lemma_mlp_served(c, t, mlp + ".shared_experts"@, hidden, width);
    }
}

proof fn lemma_attention_served(c: CheckpointView, s: Seq<StepView>, args: ModelArgs, a: Seq<char>)
    requires
        all_served(s, c.weights),
        attention_verdict(c, args, a) is Pass,
    ensures
        all_served(attention_steps(s, a, args.use_qk_norm), c.weights),
{
}

proof fn lemma_feed_forward_served(c: CheckpointView, s: Seq<StepView>, args: ModelArgs, mlp: Seq<char>, i: nat)
    requires
        all_served(s, c.weights),
        feed_forward_verdict(c, args, mlp, i) is Pass,
    ensures
        all_served(
            if args.sparse(i as int) {
                sparse_steps(s, c.weights, mlp, args.moe_router_enable_expert_bias, args.spec_has_shared())
            } else {
                mlp_steps(s, mlp)
            },
            c.weights,
        ),
{
    if args.sparse(i as int) {
        lemma_sparse_served(
            c,
            s,
            mlp,
            args.spec_experts(),
            args.hidden_size as nat,
            args.spec_moe_width(),
            args.moe_router_enable_expert_bias,
            if args.spec_has_shared() { Some(args.spec_shared_width()) } else { None },
        );
    } else {
        lemma_mlp_served(c, s, mlp, args.hidden_size as nat, args.intermediate_size as nat);
    }
}

proof fn lemma_stack_served(c: CheckpointView, args: ModelArgs, n: nat)
    requires
        layers_verdict(c, args, 0) is Pass,
        n <= args.num_hidden_layers,
    ensures
        all_served(stack_steps(c.weights, args, n), c.weights),
    decreases n,
{
    if n > 0 {
        let i = (n - 1) as nat;
        let p = layer_name(i);
        lemma_stack_served(c, args, i);
        lemma_layer_passes(c, args, 0, i);
        let s = stack_steps(c.weights, args, i);
        lemma_attention_served(c, s, args, p + ".attention"@);
        let s = attention_steps(s, p + ".attention"@, args.use_qk_norm);
        lemma_feed_forward_served(c, s, args, p + ".mlp"@, i);
    }
}

pub proof fn lemma_head_served(
    c: CheckpointView,
    s: Seq<StepView>,
    norm_head: bool,
    family: Seq<char>,
    rows: nat,
    hidden: nat,
)
    requires
        all_served(s, c.weights),
        c.projection("lm_head"@, rows, hidden) is Pass,
        !norm_head || !c.weights.contains_key("lm_head.scales"@),
    ensures
        all_served(s.push(head_step(c.weights, norm_head, family)), c.weights),
{
    reveal_strlit("lm_head");
    reveal_strlit(".weight");
    reveal_strlit("lm_head.weight");
    assert("lm_head"@ + ".weight"@ =~= "lm_head.weight"@);
    assert(served(head_step(c.weights, norm_head, family), c.weights));
}

/// A checkpoint that passes holds every tensor that the load takes and the weight of every
/// projection that it builds, unless the config asks to normalize a quantized output projection.
pub proof fn passing_checkpoint_serves_the_load(c: CheckpointView, args: ModelArgs)
    requires
        weights_verdict(c, args) is Pass,
        args.tie_word_embeddings || !args.norm_head || !c.weights.contains_key("lm_head.scales"@),
    ensures
        all_served(model_steps(c.weights, args), c.weights),
{
    lemma_stack_served(c, args, args.num_hidden_layers as nat);
    let s = step(
        stack_steps(c.weights, args, args.num_hidden_layers as nat),
        StepKind::Tensor,
        "model.norm.weight"@,
    );
    assert(all_served(s, c.weights));
    if !args.tie_word_embeddings {
        lemma_head_served(c, s, args.norm_head, "Bailing MoE"@, args.vocab_size as nat, args.hidden_size as nat);
    }
}

} // verus!
