//! Config checks that the mixture-of-experts families share, each worded for its family.
use vstd::prelude::*;
use vstd::string::*;
use crate::json::ScalingBlock;
use crate::single::{finite, positive, Single};
use crate::text::{debug_string, debug_text, dec, dec_int, same, text};

verus! {

pub const MAX_NUM_HIDDEN_LAYERS: usize = 1024;
pub const MAX_HIDDEN_SIZE: usize = 65_536;
pub const MAX_NUM_ATTENTION_HEADS: usize = 4096;
pub const MAX_HEAD_DIM: usize = 8192;
pub const MAX_INTERMEDIATE_SIZE: usize = 4_194_304;
pub const MAX_MAX_POSITION_EMBEDDINGS: usize = 4_194_304;
pub const MAX_VOCAB_SIZE: usize = 16_777_216;
pub const MAX_NUM_EXPERTS: usize = 4096;
pub const MAX_NUM_SHARED_EXPERTS: usize = 1024;

/// The outcome of a config check: nothing found, or the message that says what is wrong.
pub type Finding = Result<(), Seq<char>>;

/// A result as the finding that it reports.
pub open spec fn told(r: Result<(), String>) -> Finding {
    match r {
        Ok(_) => Ok(()),
        Err(e) => Err(e@),
    }
}

/// Two checks in a row: the second counts once the first found nothing.
pub open spec fn next(a: Finding, b: Finding) -> Finding {
    match a {
        Ok(_) => b,
        Err(e) => Err(e),
    }
}

/// A count from 1 to `max`.
pub open spec fn in_range(family: Seq<char>, field: Seq<char>, value: nat, max: nat) -> Finding {
    if value == 0 || value > max {
        Err(family + " "@ + field + " ("@ + dec(value) + ") must be between 1 and "@ + dec(max))
    } else {
        Ok(())
    }
}

/// A count from 1 to `max`.
pub fn check_range(family: &str, field: &str, value: usize, max: usize) -> (r: Result<(), String>)
    ensures told(r) == in_range(family@, field@, value as nat, max as nat),
{
    if value == 0 || value > max {
        Err(
            text(family).lit(" ").lit(field).lit(" (").num(value).lit(") must be between 1 and ").num(max).done(),
        )
    } else {
        Ok(())
    }
}

/// Key/value heads: at least one, at most the query heads, and dividing them.
pub open spec fn kv_heads(family: Seq<char>, kv: nat, heads: nat) -> Finding {
    if kv == 0 || kv > heads {
        Err(
            family + " num_key_value_heads ("@ + dec(kv)
                + ") must be between 1 and num_attention_heads ("@ + dec(heads) + ")"@,
        )
    } else if heads % kv != 0 {
        Err(
            family + " num_attention_heads ("@ + dec(heads) + ") must be divisible by num_key_value_heads ("@
                + dec(kv) + ") for grouped-query attention"@,
        )
    } else {
        Ok(())
    }
}

/// Key/value heads: at least one, at most the query heads, and dividing them.
pub fn check_kv_heads(family: &str, kv: usize, heads: usize) -> (r: Result<(), String>)
    ensures told(r) == kv_heads(family@, kv as nat, heads as nat),
{
    if kv == 0 || kv > heads {
        Err(
            text(family).lit(" num_key_value_heads (").num(kv).lit(
                ") must be between 1 and num_attention_heads (",
            ).num(heads).lit(")").done(),
        )
    } else if heads % kv != 0 {
        Err(
            text(family).lit(" num_attention_heads (").num(heads).lit(
                ") must be divisible by num_key_value_heads (",
            ).num(kv).lit(") for grouped-query attention").done(),
        )
    } else {
        Ok(())
    }
}

/// A dense prefix no longer than the stack.
pub open spec fn dense_prefix(family: Seq<char>, field: Seq<char>, dense: nat, layers: nat) -> Finding {
    if dense > layers {
        Err(
            family + " "@ + field + " ("@ + dec(dense) + ") must not exceed num_hidden_layers ("@ + dec(layers)
                + ")"@,
        )
    } else {
        Ok(())
    }
}

/// A dense prefix no longer than the stack.
pub fn check_dense_prefix(family: &str, field: &str, dense: usize, layers: usize) -> (r: Result<(), String>)
    ensures told(r) == dense_prefix(family@, field@, dense as nat, layers as nat),
{
    if dense > layers {
        Err(
            text(family).lit(" ").lit(field).lit(" (").num(dense).lit(
                ") must not exceed num_hidden_layers (",
            ).num(layers).lit(")").done(),
        )
    } else {
        Ok(())
    }
}

/// What a router is configured with, and how its family names the fields.
pub struct Routing<'a> {
    pub family: &'a str,
    pub score_field: &'a str,
    pub score_choices: &'a str,
    pub scale_field: &'a str,
    pub num_experts: usize,
    pub num_experts_per_tok: usize,
    pub score: &'a str,
    pub n_group: usize,
    pub topk_group: usize,
    pub scale: &'a Single,
}

/// The contents of a [`Routing`].
pub struct RoutingView {
    pub family: Seq<char>,
    pub score_field: Seq<char>,
    pub score_choices: Seq<char>,
    pub scale_field: Seq<char>,
    pub num_experts: nat,
    pub num_experts_per_tok: nat,
    pub score: Seq<char>,
    pub n_group: nat,
    pub topk_group: nat,
    pub scale: Single,
}

impl<'a> View for Routing<'a> {
    type V = RoutingView;

    open spec fn view(&self) -> RoutingView {
        RoutingView {
            family: self.family@,
            score_field: self.score_field@,
            score_choices: self.score_choices@,
            scale_field: self.scale_field@,
            num_experts: self.num_experts as nat,
            num_experts_per_tok: self.num_experts_per_tok as nat,
            score: self.score@,
            n_group: self.n_group as nat,
            topk_group: self.topk_group as nat,
            scale: *self.scale,
        }
    }
}

impl RoutingView {
    /// Router parameters that keep every index of the selection in range.
    pub open spec fn finding(self) -> Finding {
        let family = self.family;
        let experts = self.num_experts;
        let groups = self.n_group;
        if experts == 0 || experts > MAX_NUM_EXPERTS {
            in_range(family, "num_experts"@, experts, MAX_NUM_EXPERTS as nat)
        } else if self.num_experts_per_tok == 0 || self.num_experts_per_tok > experts {
            Err(
                family + " num_experts_per_tok ("@ + dec(self.num_experts_per_tok)
                    + ") must be between 1 and num_experts ("@ + dec(experts)
                    + "); the router selects that many indices out of a row of num_experts scores"@,
            )
        } else if self.score != "sigmoid"@ && self.score != "softmax"@ {
            Err(
                family + " "@ + self.score_field + " ("@ + debug_text(self.score) + ") must be "@
                    + self.score_choices
                    + "; an unrecognized value is rejected rather than silently falling back, because either fallback changes the routing distribution on every token while leaving the output finite and plausible"@,
            )
        } else if groups == 0 {
            Err(family + " n_group must be at least 1 (1 disables grouped routing)"@)
        } else if groups > 1 && experts % groups != 0 {
            Err(
                family + " num_experts ("@ + dec(experts) + ") must be divisible by n_group ("@ + dec(groups)
                    + "); grouped routing reshapes the score row into n_group equal groups"@,
            )
        } else if groups > 1 && experts / groups < 2 {
            Err(
                family + " n_group ("@ + dec(groups) + ") leaves "@ + dec(experts / groups)
                    + " expert(s) per group; grouped routing scores each group by the sum of its top two experts, so a group must hold at least 2"@,
            )
        } else if groups > 1 && (self.topk_group == 0 || self.topk_group >= groups) {
            Err(
                family + " topk_group ("@ + dec(self.topk_group)
                    + ") must be between 1 and n_group - 1 ("@ + dec((groups - 1) as nat)
                    + "); the grouped-routing step zeroes the bottom n_group - topk_group groups via argpartition(kth = n_group - topk_group - 1), which is out of range as soon as topk_group reaches n_group, and an MLX C++ exception crossing the cxx bridge is an uncatchable abort at the first forward pass rather than a load error"@,
            )
        } else if !finite(self.scale.bits) {
            Err(
                family + " "@ + self.scale_field + " ("@ + self.scale.text@
                    + ") must be finite; it multiplies every routed expert weight, so a non-finite value makes every MoE output NaN and that NaN reaches the logits without anything throwing"@,
            )
        } else {
            Ok(())
        }
    }

    /// Router parameters that keep every index of the selection in range.
    pub open spec fn usable(self) -> bool {
        &&& 1 <= self.num_experts <= MAX_NUM_EXPERTS
        &&& 1 <= self.num_experts_per_tok <= self.num_experts
        &&& self.score == "sigmoid"@ || self.score == "softmax"@
        &&& self.n_group >= 1
        &&& self.n_group > 1 ==> {
            &&& self.num_experts % self.n_group == 0
            &&& self.num_experts / self.n_group >= 2
            &&& 1 <= self.topk_group < self.n_group
        }
        &&& finite(self.scale.bits)
    }
}

impl<'a> Routing<'a> {
    /// Router parameters that keep every index of the selection in range.
    pub fn check(&self) -> (r: Result<(), String>)
        ensures told(r) == self@.finding(),
    {
        if self.num_experts == 0 || self.num_experts > MAX_NUM_EXPERTS {
            return check_range(self.family, "num_experts", self.num_experts, MAX_NUM_EXPERTS);
        }
        if self.num_experts_per_tok == 0 || self.num_experts_per_tok > self.num_experts {
            return Err(
                text(self.family).lit(" num_experts_per_tok (").num(self.num_experts_per_tok).lit(
                    ") must be between 1 and num_experts (",
                ).num(self.num_experts).lit(
                    "); the router selects that many indices out of a row of num_experts scores",
                ).done(),
            );
        }
        if !same(self.score, "sigmoid") && !same(self.score, "softmax") {
            let quoted: String = debug_string(self.score);
            return Err(
                text(self.family).lit(" ").lit(self.score_field).lit(" (").lit(quoted.as_str()).lit(
                    ") must be ",
                ).lit(self.score_choices).lit(
                    "; an unrecognized value is rejected rather than silently falling back, because either fallback changes the routing distribution on every token while leaving the output finite and plausible",
                ).done(),
            );
        }
        if self.n_group == 0 {
            return Err(
                text(self.family).lit(" n_group must be at least 1 (1 disables grouped routing)").done(),
            );
        }
        if self.n_group > 1 {
            if self.num_experts % self.n_group != 0 {
                return Err(
                    text(self.family).lit(" num_experts (").num(self.num_experts).lit(
                        ") must be divisible by n_group (",
                    ).num(self.n_group).lit(
                        "); grouped routing reshapes the score row into n_group equal groups",
                    ).done(),
                );
            }
            let experts_per_group: usize = self.num_experts / self.n_group;
            if experts_per_group < 2 {
                return Err(
                    text(self.family).lit(" n_group (").num(self.n_group).lit(") leaves ").num(
                        experts_per_group,
                    ).lit(
                        " expert(s) per group; grouped routing scores each group by the sum of its top two experts, so a group must hold at least 2",
                    ).done(),
                );
            }
            if self.topk_group == 0 || self.topk_group >= self.n_group {
                return Err(
                    text(self.family).lit(" topk_group (").num(self.topk_group).lit(
                        ") must be between 1 and n_group - 1 (",
                    ).num(self.n_group - 1).lit(
                        "); the grouped-routing step zeroes the bottom n_group - topk_group groups via argpartition(kth = n_group - topk_group - 1), which is out of range as soon as topk_group reaches n_group, and an MLX C++ exception crossing the cxx bridge is an uncatchable abort at the first forward pass rather than a load error",
                    ).done(),
                );
            }
        }
        if !self.scale.is_finite() {
            return Err(
                text(self.family).lit(" ").lit(self.scale_field).lit(" (").lit(self.scale.text.as_str()).lit(
                    ") must be finite; it multiplies every routed expert weight, so a non-finite value makes every MoE output NaN and that NaN reaches the logits without anything throwing",
                ).done(),
            );
        }
        Ok(())
    }
}

/// The width of the always-on shared expert: `per_expert * count`.
pub open spec fn shared_width(
    family: Seq<char>,
    field: Seq<char>,
    detailed: bool,
    present: bool,
    per_expert: nat,
    count: nat,
) -> Finding {
    let width = per_expert * count;
    if count > MAX_NUM_SHARED_EXPERTS {
        Err(
            family + " num_shared_experts ("@ + dec(count) + ") must not exceed "@
                + dec(MAX_NUM_SHARED_EXPERTS as nat),
        )
    } else if !present {
        Ok(())
    } else if width > usize::MAX {
        Err(
            family + " shared-expert width overflows: "@ + field + " ("@ + dec(per_expert)
                + ") * num_shared_experts ("@ + dec(count) + ")"@,
        )
    } else if width == 0 || width > MAX_INTERMEDIATE_SIZE {
        if detailed {
            Err(
                family + " shared-expert width ("@ + dec(width) + ", from a per-expert width of "@
                    + dec(per_expert) + " times num_shared_experts "@ + dec(count)
                    + ") must be between 1 and "@ + dec(MAX_INTERMEDIATE_SIZE as nat),
            )
        } else {
            Err(
                family + " shared-expert width ("@ + dec(width) + ") must be between 1 and "@
                    + dec(MAX_INTERMEDIATE_SIZE as nat),
            )
        }
    } else {
        Ok(())
    }
}

/// The width of the always-on shared expert: `per_expert * count`.
pub fn check_shared_width(
    family: &str,
    field: &str,
    detailed: bool,
    present: bool,
    per_expert: usize,
    count: usize,
) -> (r: Result<(), String>)
    ensures
        told(r) == shared_width(family@, field@, detailed, present, per_expert as nat, count as nat),
{
    if count > MAX_NUM_SHARED_EXPERTS {
        return Err(
            text(family).lit(" num_shared_experts (").num(count).lit(") must not exceed ").num(
                MAX_NUM_SHARED_EXPERTS,
            ).done(),
        );
    }
    if !present {
        return Ok(());
    }
    match per_expert.checked_mul(count) {
        None => Err(
            text(family).lit(" shared-expert width overflows: ").lit(field).lit(" (").num(per_expert).lit(
                ") * num_shared_experts (",
            ).num(count).lit(")").done(),
        ),
        Some(width) => {
            if width == 0 || width > MAX_INTERMEDIATE_SIZE {
                if detailed {
                    Err(
                        text(family).lit(" shared-expert width (").num(width).lit(
                            ", from a per-expert width of ",
                        ).num(per_expert).lit(" times num_shared_experts ").num(count).lit(
                            ") must be between 1 and ",
                        ).num(MAX_INTERMEDIATE_SIZE).done(),
                    )
                } else {
                    Err(
                        text(family).lit(" shared-expert width (").num(width).lit(
                            ") must be between 1 and ",
                        ).num(MAX_INTERMEDIATE_SIZE).done(),
                    )
                }
            } else {
                Ok(())
            }
        },
    }
}

/// A rotation base that is finite and positive.
pub open spec fn rope_theta(family: Seq<char>, theta: Single) -> Finding {
    if !finite(theta.bits) || !positive(theta.bits) {
        Err(
            family + " rope_theta ("@ + theta.text@
                + ") must be a finite positive number; RoPE exponentiates it per channel, so a zero, negative or non-finite base makes every rotated channel NaN and that NaN reaches the logits without anything throwing"@,
        )
    } else {
        Ok(())
    }
}

/// A rotation base that is finite and positive.
pub fn check_rope_theta(family: &str, theta: &Single) -> (r: Result<(), String>)
    ensures told(r) == rope_theta(family@, *theta),
{
    if !theta.is_finite() || !theta.is_positive() {
        Err(
            text(family).lit(" rope_theta (").lit(theta.text.as_str()).lit(
                ") must be a finite positive number; RoPE exponentiates it per channel, so a zero, negative or non-finite base makes every rotated channel NaN and that NaN reaches the logits without anything throwing",
            ).done(),
        )
    } else {
        Ok(())
    }
}

/// A rotary width that is even and between 2 and the head width.
pub open spec fn rotary_width(subject: Seq<char>, dims: int, head_dim: nat, advice: Seq<char>) -> Finding {
    if dims <= 0 || dims > head_dim {
        Err(
            subject + " rotary width resolves to "@ + dec_int(dims) + " for a head of width "@ + dec(head_dim)
                + "; it must be an even number between 2 and "@ + dec(head_dim)
                + ". MLX throws on a rope `dims` outside that range, and an MLX C++ exception crossing the cxx bridge is an uncatchable abort at the first forward pass rather than a load error. Check "@
                + advice + "."@,
        )
    } else if dims % 2 != 0 {
        Err(
            subject + " rotary width resolves to an odd "@ + dec_int(dims) + " for a head of width "@
                + dec(head_dim)
                + "; RoPE rotates channel pairs, so the rope `dims` must be even, and MLX throws on an odd one. Check "@
                + advice + "."@,
        )
    } else {
        Ok(())
    }
}

/// A rotary width that is even and between 2 and the head width.
pub fn check_rotary_width(subject: &str, dims: i32, head_dim: usize, advice: &str) -> (r: Result<(), String>)
    ensures told(r) == rotary_width(subject@, dims as int, head_dim as nat, advice@),
{
    if dims <= 0 || dims as u64 > head_dim as u64 {
        Err(
            text(subject).lit(" rotary width resolves to ").whole(dims).lit(" for a head of width ").num(
                head_dim,
            ).lit("; it must be an even number between 2 and ").num(head_dim).lit(
                ". MLX throws on a rope `dims` outside that range, and an MLX C++ exception crossing the cxx bridge is an uncatchable abort at the first forward pass rather than a load error. Check ",
            ).lit(advice).lit(".").done(),
        )
    } else if dims % 2 != 0 {
        Err(
            text(subject).lit(" rotary width resolves to an odd ").whole(dims).lit(
                " for a head of width ",
            ).num(head_dim).lit(
                "; RoPE rotates channel pairs, so the rope `dims` must be even, and MLX throws on an odd one. Check ",
            ).lit(advice).lit(".").done(),
        )
    } else {
        Ok(())
    }
}

/// No scaling of positions: the block is absent, empty, or names the default kind.
pub open spec fn rope_scaling(family: Seq<char>, scaling: Option<ScalingBlock>) -> Finding {
    match scaling {
        None => Ok(()),
        Some(block) => {
            if block.members@.len() == 0 || block.spec_kind() == Some("default"@) {
                Ok(())
            } else {
                Err(
                    family + " rope_scaling ("@ + block.spec_debug()
                        + ") is not implemented for this family; upstream threads it into initialize_rope, but this loader always builds the plain rotation, so accepting a scaled block would place every token at the wrong position while the model still loaded and still generated fluent text. Only an absent, empty or \"default\" block is accepted."@,
                )
            }
        },
    }
}

/// No scaling of positions: the block is absent, empty, or names the default kind.
pub fn check_rope_scaling(family: &str, scaling: &Option<ScalingBlock>) -> (r: Result<(), String>)
    ensures told(r) == rope_scaling(family@, *scaling),
{
    match scaling {
        None => Ok(()),
        Some(block) => {
            if block.members.len() == 0 {
                return Ok(());
            }
            if let Some(kind) = block.kind() {
                if same(kind, "default") {
                    return Ok(());
                }
            }
            let shown: String = block.debug();
            Err(
                text(family).lit(" rope_scaling (").lit(shown.as_str()).lit(
                    ") is not implemented for this family; upstream threads it into initialize_rope, but this loader always builds the plain rotation, so accepting a scaled block would place every token at the wrong position while the model still loaded and still generated fluent text. Only an absent, empty or \"default\" block is accepted.",
                ).done(),
            )
        },
    }
}

/// A normalizer epsilon that is finite and positive.
pub open spec fn norm_eps(family: Seq<char>, eps: Single) -> Finding {
    if !finite(eps.bits) || !positive(eps.bits) {
        Err(
            family + " rms_norm_eps ("@ + eps.text@
                + ") must be a finite positive number; it is added to the mean square under an rsqrt, so a non-finite, negative or zero value makes every normalized hidden state NaN and that NaN reaches the logits without anything throwing"@,
        )
    } else {
        Ok(())
    }
}

/// A normalizer epsilon that is finite and positive.
pub fn check_norm_eps(family: &str, eps: &Single) -> (r: Result<(), String>)
    ensures told(r) == norm_eps(family@, *eps),
{
    if !eps.is_finite() || !eps.is_positive() {
        Err(
            text(family).lit(" rms_norm_eps (").lit(eps.text.as_str()).lit(
                ") must be a finite positive number; it is added to the mean square under an rsqrt, so a non-finite, negative or zero value makes every normalized hidden state NaN and that NaN reaches the logits without anything throwing",
            ).done(),
        )
    } else {
        Ok(())
    }
}

/// The engine's verdict on the quantization parameters, where the config declares any.
pub open spec fn quantization_params(family: Seq<char>, declared: bool, refusal: Option<&str>) -> Finding {
    match refusal {
        Some(e) if declared => Err(family + " config.json: "@ + e@),
        _ => Ok(()),
    }
}

/// The engine's verdict on the quantization parameters, where the config declares any.
pub fn check_quantization_params(family: &str, declared: bool, refusal: Option<&str>) -> (r: Result<(), String>)
    ensures told(r) == quantization_params(family@, declared, refusal),
{
    match refusal {
        Some(e) => {
            if declared {
                Err(text(family).lit(" config.json: ").lit(e).done())
            } else {
                Ok(())
            }
        },
        None => Ok(()),
    }
}

} // verus!
