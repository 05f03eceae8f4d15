//! Which configs the families take, and what they read out of them.
use vstd::prelude::*;
use vstd::string::*;
use crate::afmoe;
use crate::apertus;
use crate::baichuan;
use crate::bailing_moe;
use crate::bailing_moe_linear;
use crate::cohere;
use crate::cohere2;
use crate::cohere2_moe;
use crate::json::{json_str, member_from, ScalingBlock};
use crate::single::{finite, positive, scaled_width, Single};
use crate::steps::{Build, Steps};
use crate::text::lower;
use crate::weights::{PackingAnswers, WeightMap};

verus! {

/// From one to `max`.
pub open spec fn within(n: int, max: int) -> bool {
    1 <= n <= max
}

/// The bits of a number above zero and below infinity.
pub open spec fn sound(bits: u32) -> bool {
    0 < bits < 0x7f80_0000
}

/// The bits of a number of either sign that is no infinity and a number at all.
pub open spec fn bounded(bits: u32) -> bool {
    bits as int % 0x8000_0000 < 0x7f80_0000
}

/// Member `i` is the first of that name.
pub open spec fn leads(m: Seq<(String, serde_json::Value)>, key: Seq<char>, i: int) -> bool {
    0 <= i < m.len() && m[i].0@ == key && forall|j: int| 0 <= j < i ==> #[trigger] m[j].0@ != key
}

/// Member `key` holds the text `kind`.
pub open spec fn says(m: Seq<(String, serde_json::Value)>, key: Seq<char>, kind: Seq<char>) -> bool {
    exists|i: int| #[trigger] leads(m, key, i) && json_str(m[i].1) == Some(kind)
}

/// No member has that name.
pub open spec fn lacks(m: Seq<(String, serde_json::Value)>, key: Seq<char>) -> bool {
    forall|j: int| 0 <= j < m.len() ==> #[trigger] m[j].0@ != key
}

/// A scaling block is of a kind: so says its `rope_type`, or its `type` where it has no `rope_type`.
pub open spec fn is_kind(block: ScalingBlock, kind: Seq<char>) -> bool {
    says(block.members@, "rope_type"@, kind) || (lacks(block.members@, "rope_type"@) && says(
        block.members@,
        "type"@,
        kind,
    ))
}

/// Positions are not scaled.
pub open spec fn unscaled(scaling: Option<ScalingBlock>) -> bool {
    scaling matches Some(block) ==> block.members@.len() == 0 || is_kind(block, "default"@)
}

/// A router that can pick `top_k` of `experts`, out of groups that hold at least two where there are
/// groups, with some but not all groups kept.
pub open spec fn routable(experts: int, top_k: int, score: Seq<char>, groups: int, kept: int, scale: u32) -> bool {
    &&& within(experts, 4096)
    &&& within(top_k, experts)
    &&& score == "sigmoid"@ || score == "softmax"@
    &&& groups >= 1
    &&& groups >= 2 ==> experts % groups == 0 && experts / groups >= 2 && 1 <= kept < groups
    &&& bounded(scale)
}

/// The counts of shared experts and of their channels.
pub open spec fn shareable(present: bool, count: int, width: int) -> bool {
    count <= 1024 && (present ==> within(width * count, 4_194_304))
}

proof fn lemma_bits(bits: u32)
    ensures
        sound(bits) <==> finite(bits) && positive(bits),
        bounded(bits) <==> finite(bits),
{
    let e = (bits as nat) / 0x80_0000;
    assert(bits as nat == 0x80_0000 * e + (bits as nat) % 0x80_0000) by {
        vstd::arithmetic::div_mod::lemma_fundamental_div_mod(bits as int, 0x80_0000);
    }
    assert(e < 512);
    assert((bits as int) % 0x8000_0000 == (if bits >= 0x8000_0000 { bits - 0x8000_0000 } else { bits as int }));
    assert(e % 256 == (if e >= 256 { (e - 256) as nat } else { e }));
}

proof fn lemma_member(m: Seq<(String, serde_json::Value)>, key: Seq<char>, from: int)
    requires 0 <= from <= m.len(),
    ensures
        member_from(m, key, from) is None <==> forall|j: int| from <= j < m.len() ==> #[trigger] m[j].0@ != key,
        member_from(m, key, from) matches Some(v) ==> exists|i: int|
            from <= i < m.len() && #[trigger] m[i].0@ == key && m[i].1 == v && forall|j: int| from <= j < i ==> #[trigger] m[j].0@
                != key,
    decreases m.len() - from,
{
    if from < m.len() && m[from].0@ != key {
        lemma_member(m, key, from + 1);
    }
}

/// The kind of a scaling block is the text under its first `rope_type`, or under its first `type` where
/// it has no `rope_type`.
pub proof fn scaling_kind_is_named(block: ScalingBlock, kind: Option<&str>, name: Seq<char>)
    requires
        call_ensures(ScalingBlock::kind, (&block,), kind),
    ensures
        (kind matches Some(k) && k@ == name) <==> is_kind(block, name),
{
    lemma_kind(block, name);
}

pub(crate) proof fn lemma_kind(block: ScalingBlock, name: Seq<char>)
    ensures block.spec_kind() == Some(name) <==> is_kind(block, name),
{
    let m = block.members@;
    lemma_says(m, "rope_type"@, name);
    lemma_says(m, "type"@, name);
}

proof fn lemma_says(m: Seq<(String, serde_json::Value)>, key: Seq<char>, name: Seq<char>)
    ensures
        says(m, key, name) <==> (member_from(m, key, 0) matches Some(v) && json_str(v) == Some(name)),
        lacks(m, key) <==> member_from(m, key, 0) is None,
{
    lemma_member(m, key, 0);
    if let Some(v) = member_from(m, key, 0) {
        let i = choose|i: int|
            0 <= i < m.len() && #[trigger] m[i].0@ == key && m[i].1 == v && forall|j: int| 0 <= j < i ==> #[trigger] m[j].0@ != key;
        assert(leads(m, key, i));
        if says(m, key, name) {
            let k = choose|k: int| #[trigger] leads(m, key, k) && json_str(m[k].1) == Some(name);
            if k < i {
                assert(m[k].0@ != key);
            } else if i < k {
                assert(m[i].0@ != key);
            }
        }
    }
}

/// An AFMoE config is taken exactly when everything that later sizes, divides or reaches a kernel is
/// within its range.
#[verifier::spinoff_prover]
#[verifier::rlimit(60)]
pub proof fn afmoe_config_is_taken_iff_sound(args: afmoe::ModelArgs, refusal: Option<&str>, r: Result<(), String>)
    requires
        call_ensures(afmoe::ModelArgs::validate, (&args, refusal), r),
    ensures
        r is Ok <==> {
            &&& within(args.num_attention_heads as int, 4096)
            &&& within(args.hidden_size as int, 65_536)
            &&& within(args.head_dim as int, 8192)
            &&& args.head_dim as int % 2 == 0
            &&& within(args.num_key_value_heads as int, args.num_attention_heads as int)
            &&& args.num_attention_heads as int % args.num_key_value_heads as int == 0
            &&& within(args.num_hidden_layers as int, 1024)
            &&& args.layer_types@.len() == 0 || args.layer_types@.len() >= args.num_hidden_layers
            &&& forall|i: int|
                0 <= i < args.layer_types@.len() ==> #[trigger] args.layer_types@[i]@ == "sliding_attention"@
                    || args.layer_types@[i]@ == "full_attention"@
            &&& forall|i: int|
                0 <= i < args.layer_types@.len() && i < args.num_hidden_layers && #[trigger] args.layer_types@[i]@
                    == "sliding_attention"@ ==> within(args.sliding_window as int, 0x7fff_ffff)
            &&& within(args.intermediate_size as int, 4_194_304)
            &&& within(args.moe_intermediate_size as int, 4_194_304)
            &&& within(args.vocab_size as int, 16_777_216)
            &&& within(args.max_position_embeddings as int, 4_194_304)
            &&& args.num_dense_layers <= args.num_hidden_layers
            &&& args.num_dense_layers < args.num_hidden_layers ==> routable(
                args.num_experts as int,
                args.num_experts_per_tok as int,
                args.score_func@,
                args.n_group as int,
                args.topk_group as int,
                args.route_scale.bits,
            )
            &&& shareable(args.num_shared_experts > 0, args.num_shared_experts as int, args.moe_intermediate_size as int)
            &&& sound(args.rope_theta.bits)
            &&& unscaled(args.rope_scaling)
            &&& sound(args.rms_norm_eps.bits)
            &&& args.quantization is None || refusal is None
        },
{
    afmoe::validated_config_is_usable(args, refusal);
    lemma_bits(args.rope_theta.bits);
    lemma_bits(args.rms_norm_eps.bits);
    lemma_bits(args.route_scale.bits);
    if let Some(block) = args.rope_scaling {
        lemma_kind(block, "default"@);
    }
    if args.some_layer_slides() {
        let i = choose|i: int| 0 <= i < args.num_hidden_layers && args.slides(i);
        assert(args.layer_types@[i]@ == "sliding_attention"@);
    } else {
        assert forall|i: int|
            0 <= i < args.layer_types@.len() && i < args.num_hidden_layers implies #[trigger] args.layer_types@[i]@
            != "sliding_attention"@ by {
            assert(!args.slides(i));
        }
    }
    if args.usable() {
        assert forall|i: int| 0 <= i < args.layer_types@.len() implies #[trigger] args.layer_types@[i]@
            == "sliding_attention"@ || args.layer_types@[i]@ == "full_attention"@ by {
            assert(afmoe::is_layer_kind(args.layer_types@[i]@));
        }
    }
}

/// A Bailing MoE config is taken exactly when everything that later sizes, divides or reaches a kernel
/// is within its range, and it sets no flag that nothing defines.
#[verifier::spinoff_prover]
#[verifier::rlimit(60)]
pub proof fn bailing_config_is_taken_iff_sound(args: bailing_moe::ModelArgs, refusal: Option<&str>, r: Result<(), String>)
    requires
        call_ensures(bailing_moe::ModelArgs::validate, (&args, refusal), r),
    ensures
        r is Ok <==> {
            let heads = args.num_attention_heads as int;
            let kv = match args.num_key_value_heads {
                Some(n) => n as int,
                None => heads,
            };
            let wide = match args.moe_intermediate_size {
                Some(n) => n as int,
                None => args.intermediate_size as int,
            };
            let shared = match args.moe_shared_expert_intermediate_size {
                Some(n) => n as int,
                None => wide,
            };
            let dim = args.hidden_size as int / heads;
            let rotated = match args.rotary_dim {
                Some(d) => if d > i32::MAX { i32::MAX as int } else { d as int },
                None => scaled_width(args.partial_rotary_factor.bits, dim as nat),
            };
            &&& within(heads, 4096)
            &&& within(args.hidden_size as int, 65_536)
            &&& args.hidden_size as int % heads == 0
            &&& within(kv, heads)
            &&& heads % kv == 0
            &&& within(args.num_hidden_layers as int, 1024)
            &&& within(args.intermediate_size as int, 4_194_304)
            &&& within(wide, 4_194_304)
            &&& within(args.vocab_size as int, 16_777_216)
            &&& within(args.max_position_embeddings as int, 4_194_304)
            &&& args.first_k_dense_replace <= args.num_hidden_layers
            &&& args.num_experts matches Some(n) ==> n > 0 ==> routable(
                n as int,
                args.num_experts_per_tok as int,
                args.score_function@,
                args.n_group as int,
                args.topk_group as int,
                args.routed_scaling_factor.bits,
            )
            &&& shareable(
                args.num_shared_experts > 0 && args.moe_router_enable_shared_expert,
                args.num_shared_experts as int,
                shared,
            )
            &&& args.rotary_dim is Some || bounded(args.partial_rotary_factor.bits)
            &&& 2 <= rotated <= dim
            &&& rotated % 2 == 0
            &&& sound(args.rope_theta.bits)
            &&& unscaled(args.rope_scaling)
            &&& sound(args.rms_norm_eps.bits)
            &&& !args.norm_softmax
            &&& args.quantization is None || refusal is None
        },
{
    bailing_moe::validated_config_is_usable(args, refusal);
    lemma_bits(args.rope_theta.bits);
    lemma_bits(args.rms_norm_eps.bits);
    lemma_bits(args.routed_scaling_factor.bits);
    lemma_bits(args.partial_rotary_factor.bits);
    if let Some(block) = args.rope_scaling {
        lemma_kind(block, "default"@);
    }
}

/// A config of the linear family is taken exactly when everything that later sizes, divides or reaches
/// a kernel is within its range, for both kinds of layers, and it sets no flag that nothing defines.
#[verifier::spinoff_prover]
#[verifier::rlimit(60)]
pub proof fn ling_config_is_taken_iff_sound(args: bailing_moe_linear::ModelArgs, refusal: Option<&str>, r: Result<(), String>)
    requires
        call_ensures(bailing_moe_linear::ModelArgs::validate, (&args, refusal), r),
    ensures
        r is Ok <==> {
            let heads = args.num_attention_heads as int;
            let kv = match args.num_key_value_heads {
                Some(n) => n as int,
                None => heads,
            };
            let wide = match args.moe_intermediate_size {
                Some(n) => n as int,
                None => args.intermediate_size as int,
            };
            let shared = match args.moe_shared_expert_intermediate_size {
                Some(n) => n as int,
                None => wide,
            };
            let share = args.hidden_size as int / heads;
            let dim = match args.head_dim {
                Some(d) => d as int,
                None => share,
            };
            let rotated = scaled_width(args.partial_rotary_factor.bits, dim as nat);
            let linear_rotated = scaled_width(args.partial_rotary_factor.bits, share as nat);
            &&& within(heads, 4096)
            &&& within(args.hidden_size as int, 65_536)
            &&& args.hidden_size as int % heads == 0
            &&& within(dim, 8192)
            &&& within(kv, heads)
            &&& heads % kv == 0
            &&& within(args.num_hidden_layers as int, 1024)
            &&& args.layer_group_size >= 1
            &&& args.group_norm_size >= 1
            &&& args.hidden_size as int % args.group_norm_size as int == 0
            &&& within(args.intermediate_size as int, 4_194_304)
            &&& within(wide, 4_194_304)
            &&& within(args.vocab_size as int, 16_777_216)
            &&& within(args.max_position_embeddings as int, 4_194_304)
            &&& args.first_k_dense_replace <= args.num_hidden_layers
            &&& args.num_experts matches Some(n) ==> n > 0 ==> routable(
                n as int,
                args.num_experts_per_tok as int,
                args.score_function@,
                args.n_group as int,
                args.topk_group as int,
                args.routed_scaling_factor.bits,
            )
            &&& shareable(
                args.num_shared_experts > 0 && args.moe_router_enable_shared_expert,
                args.num_shared_experts as int,
                shared,
            )
            &&& bounded(args.partial_rotary_factor.bits)
            &&& 2 <= rotated <= dim
            &&& rotated % 2 == 0
            &&& 2 <= linear_rotated <= share
            &&& linear_rotated % 2 == 0
            &&& sound(args.rope_theta.bits)
            &&& unscaled(args.rope_scaling)
            &&& sound(args.rms_norm_eps.bits)
            &&& !args.norm_softmax
            &&& args.use_rmsnorm
            &&& args.quantization is None || refusal is None
        },
{
    bailing_moe_linear::validated_config_is_usable(args, refusal);
    lemma_bits(args.rope_theta.bits);
    lemma_bits(args.rms_norm_eps.bits);
    lemma_bits(args.routed_scaling_factor.bits);
    lemma_bits(args.partial_rotary_factor.bits);
    if let Some(block) = args.rope_scaling {
        lemma_kind(block, "default"@);
    }
    if args.num_attention_heads > 0 {
        vstd::arithmetic::div_mod::lemma_fundamental_div_mod(args.hidden_size as int, args.num_attention_heads as int);
    }
}

/// What Bailing MoE reads out of a config: key heads and expert widths fall back as documented, the
/// parts of the fused projection lie end to end, and a layer is sparse past the dense prefix of a
/// model with routed experts.
pub proof fn bailing_widths_follow_the_config(
    args: bailing_moe::ModelArgs,
    dim: usize,
    kv: usize,
    out: usize,
    cut: (usize, usize),
    wide: usize,
    experts: usize,
    shared: usize,
    layer: usize,
    sparse: bool,
    has_shared: bool,
)
    requires
        args.num_attention_heads > 0,
        call_ensures(bailing_moe::ModelArgs::head_dim, (&args,), dim),
        call_ensures(bailing_moe::ModelArgs::num_kv_heads, (&args,), kv),
        call_ensures(bailing_moe::ModelArgs::qkv_out_features, (&args,), out),
        call_ensures(bailing_moe::ModelArgs::qkv_split_offsets, (&args,), cut),
        call_ensures(bailing_moe::ModelArgs::moe_intermediate_size, (&args,), wide),
        call_ensures(bailing_moe::ModelArgs::num_experts, (&args,), experts),
        call_ensures(bailing_moe::ModelArgs::shared_expert_intermediate_size, (&args,), shared),
        call_ensures(bailing_moe::ModelArgs::is_moe_layer, (&args, layer), sparse),
        call_ensures(bailing_moe::ModelArgs::has_shared_expert, (&args,), has_shared),
    ensures
        dim == args.hidden_size as int / args.num_attention_heads as int,
        args.num_key_value_heads matches Some(n) ==> kv == n,
        args.num_key_value_heads is None ==> kv == args.num_attention_heads,
        cut.0 == args.num_attention_heads * dim,
        cut.1 - cut.0 == kv * dim,
        out - cut.1 == kv * dim,
        args.moe_intermediate_size matches Some(n) ==> wide == n,
        args.moe_intermediate_size is None ==> wide == args.intermediate_size,
        args.num_experts matches Some(n) ==> experts == n,
        args.num_experts is None ==> experts == 0,
        ({
            let one = match args.moe_shared_expert_intermediate_size {
                Some(n) => n as int,
                None => wide as int,
            };
            shared == (if one * args.num_shared_experts > usize::MAX { usize::MAX as int } else { one * args.num_shared_experts })
        }),
        sparse <==> experts > 0 && layer >= args.first_k_dense_replace,
        has_shared <==> args.num_shared_experts > 0 && args.moe_router_enable_shared_expert,
{
    let h = args.num_attention_heads as int;
    let k = kv as int;
    let d = dim as int;
    assert((h + k) * d == h * d + k * d) by (nonlinear_arith);
    assert((h + 2 * k) * d == h * d + 2 * (k * d)) by (nonlinear_arith);
}

/// What the linear family reads out of a config: both head widths, both fused projections, and which
/// layers have full attention.
pub proof fn ling_widths_follow_the_config(
    args: bailing_moe_linear::ModelArgs,
    dim: usize,
    linear_dim: usize,
    kv: usize,
    out: usize,
    linear_out: usize,
    layer: usize,
    sparse: bool,
    full: bool,
    first: Option<usize>,
)
    requires
        args.num_attention_heads > 0,
        args.layer_group_size > 0,
        call_ensures(bailing_moe_linear::ModelArgs::head_dim, (&args,), dim),
        call_ensures(bailing_moe_linear::ModelArgs::linear_head_dim, (&args,), linear_dim),
        call_ensures(bailing_moe_linear::ModelArgs::num_kv_heads, (&args,), kv),
        call_ensures(bailing_moe_linear::ModelArgs::attention_qkv_out_features, (&args,), out),
        call_ensures(bailing_moe_linear::ModelArgs::linear_qkv_out_features, (&args,), linear_out),
        call_ensures(bailing_moe_linear::ModelArgs::is_moe_layer, (&args, layer), sparse),
        call_ensures(bailing_moe_linear::ModelArgs::is_global_layer, (&args, layer), full),
        call_ensures(bailing_moe_linear::ModelArgs::global_layer_index, (&args,), first),
    ensures
        linear_dim == args.hidden_size as int / args.num_attention_heads as int,
        args.head_dim matches Some(d) ==> dim == d,
        args.head_dim is None ==> dim == linear_dim,
        args.num_key_value_heads matches Some(n) ==> kv == n,
        args.num_key_value_heads is None ==> kv == args.num_attention_heads,
        out == args.num_attention_heads * dim + 2 * (kv * dim),
        linear_out == 3 * (args.num_attention_heads * linear_dim),
        sparse <==> (args.num_experts matches Some(n) && n > 0) && layer >= args.first_k_dense_replace,
        ({
            let g = args.layer_group_size as int;
            full <==> (layer as int + 1) % g == 0 || layer >= (args.num_hidden_layers as int / g) * g
        }),
        first matches Some(i) ==> i < args.num_hidden_layers && (layer < i ==> !full) && (layer == i ==> full),
        first is None ==> layer < args.num_hidden_layers ==> !full,
{
    let h = args.num_attention_heads as int;
    let k = kv as int;
    let d = dim as int;
    assert((h + 2 * k) * d == h * d + 2 * (k * d)) by (nonlinear_arith);
}

/// What AFMoE reads out of a config.
pub proof fn afmoe_widths_follow_the_config(
    args: afmoe::ModelArgs,
    layer: usize,
    slides: bool,
    sparse: bool,
    shared: usize,
    has_shared: bool,
    score: afmoe::ScoreFunc,
    full: Option<usize>,
    sliding: Option<usize>,
)
    requires
        call_ensures(afmoe::ModelArgs::is_sliding_layer, (&args, layer), slides),
        call_ensures(afmoe::ModelArgs::is_moe_layer, (&args, layer), sparse),
        call_ensures(afmoe::ModelArgs::shared_expert_intermediate_size, (&args,), shared),
        call_ensures(afmoe::ModelArgs::has_shared_expert, (&args,), has_shared),
        call_ensures(afmoe::ModelArgs::score_func, (&args,), score),
        call_ensures(afmoe::ModelArgs::full_attention_index, (&args,), full),
        call_ensures(afmoe::ModelArgs::sliding_index, (&args,), sliding),
    ensures
        slides <==> layer < args.layer_types@.len() && args.layer_types@[layer as int]@ == "sliding_attention"@,
        sparse <==> layer >= args.num_dense_layers,
        has_shared <==> args.num_shared_experts > 0,
        args.moe_intermediate_size * args.num_shared_experts <= usize::MAX ==> shared == args.moe_intermediate_size
            * args.num_shared_experts,
        args.moe_intermediate_size * args.num_shared_experts > usize::MAX ==> shared == usize::MAX,
        score == afmoe::ScoreFunc::Softmax <==> args.score_func@ == "softmax"@,
        full matches Some(i) ==> i < args.num_hidden_layers && (layer < i ==> slides) && (layer == i ==> !slides),
        full is None ==> layer < args.num_hidden_layers ==> slides,
        sliding matches Some(i) ==> i < args.num_hidden_layers && (layer < i ==> !slides) && (layer == i ==> slides),
        sliding is None ==> layer < args.num_hidden_layers ==> !slides,
{
}

/// What Cohere2 reads out of a config: either name of a field counts.
pub proof fn cohere2_schedule_follows_the_config(
    args: cohere2::Cohere2Config,
    group: usize,
    tied: bool,
    layer: usize,
    slides: bool,
    first: usize,
    global: usize,
)
    requires
        layer < args.num_hidden_layers,
        call_ensures(cohere2::Cohere2Config::get_sliding_window_pattern, (&args,), group),
        call_ensures(cohere2::Cohere2Config::should_tie_embeddings, (&args,), tied),
        call_ensures(cohere2::Cohere2Config::is_sliding_window_layer, (&args, layer), slides),
        call_ensures(cohere2::Cohere2Config::first_sliding, (&args,), first),
        call_ensures(cohere2::Cohere2Config::first_global, (&args,), global),
    ensures
        args.sliding_window_pattern matches Some(n) ==> group == n,
        args.sliding_window_pattern is None ==> (args.layer_switch matches Some(n) ==> group == n),
        args.sliding_window_pattern is None && args.layer_switch is None ==> group == 4,
        tied <==> args.tie_word_embeddings || args.use_embedding_sharing,
        group == 0 ==> slides,
        group > 0 ==> (slides <==> (layer as int + 1) % group as int != 0),
        slides && layer <= first ==> layer == first,
        group > 0 ==> global == group - 1,
        group == 1 ==> first == 0,
{
    if group > 0 {
        cohere2::first_global_layer_ends_the_first_group(args, global);
    }
    assert(slides == args.slides(layer as int));
    if group == 1 {
        assert forall|j: int| 0 <= j < args.num_hidden_layers implies !args.slides(j) by {
            assert((j + 1) % 1 == 0);
        }
    }
}

/// What Cohere2 MoE reads out of a config: an override counts where there is one, names are read in any
/// letter case, and the dense prefix never slides.
pub proof fn cohere2_moe_reads_its_config(
    args: cohere2_moe::Cohere2MoeConfig,
    layer: usize,
    slides: bool,
    rotates: bool,
    dense: bool,
    shared: usize,
    width: usize,
    sigmoid: bool,
    average: bool,
)
    requires
        call_ensures(cohere2_moe::Cohere2MoeConfig::is_sliding_window_layer, (&args, layer), slides),
        call_ensures(cohere2_moe::Cohere2MoeConfig::layer_uses_rope, (&args, layer), rotates),
        call_ensures(cohere2_moe::Cohere2MoeConfig::is_dense_layer, (&args, layer), dense),
        call_ensures(cohere2_moe::Cohere2MoeConfig::shared_expert_count, (&args,), shared),
        call_ensures(cohere2_moe::Cohere2MoeConfig::prefix_dense_intermediate, (&args,), width),
        call_ensures(cohere2_moe::Cohere2MoeConfig::gate_is_sigmoid, (&args,), sigmoid),
        call_ensures(cohere2_moe::Cohere2MoeConfig::shared_combine_average, (&args,), average),
    ensures
        dense <==> layer < args.first_k_dense_replace,
        dense ==> !slides && (rotates <==> args.prefix_dense_sliding_window_pattern == 1),
        !dense ==> (rotates <==> slides),
        !dense && args.layer_types is None && args.sliding_window_pattern > 0 ==> (slides <==> (layer as int + 1)
            % args.sliding_window_pattern as int != 0),
        !dense && args.layer_types is None && args.sliding_window_pattern == 0 ==> slides,
        args.layer_types matches Some(types) ==> !dense ==> (slides <==> layer < types@.len() && types@[layer as int]@
            == "sliding_attention"@),
        args.num_shared_experts matches Some(n) ==> shared == n,
        args.num_shared_experts is None ==> shared == args.moe_num_shared_experts,
        args.prefix_dense_intermediate_size matches Some(n) ==> width == n,
        args.prefix_dense_intermediate_size is None ==> width == args.intermediate_size,
        args.expert_selection_fn matches Some(a) ==> (sigmoid <==> lower(a@) != "softmax"@),
        args.expert_selection_fn is None ==> (sigmoid <==> lower(args.moe_gate_act@) != "softmax"@),
        average <==> lower(args.shared_expert_combination_strategy@) != "sum"@,
{
}

/// The head widths of the plain families, and the frequencies that Apertus scales: one for each channel
/// pair where positions are scaled in bands, none elsewhere.
pub proof fn head_widths_follow_the_config(
    a: apertus::ModelArgs,
    c: cohere::ModelArgs,
    b: baichuan::BaichuanConfig,
    da: usize,
    fa: Option<usize>,
    dc: usize,
    db: usize,
    layer: usize,
    slides: bool,
    heads: usize,
)
    requires
        a.num_attention_heads > 0,
        c.num_attention_heads > 0,
        b.num_attention_heads > 0,
        call_ensures(apertus::ModelArgs::head_dim, (&a,), da),
        call_ensures(apertus::ModelArgs::compute_rope_freqs, (&a,), fa),
        call_ensures(cohere::ModelArgs::head_dim, (&c,), dc),
        call_ensures(baichuan::BaichuanConfig::head_dim, (&b,), db),
        call_ensures(baichuan::BaichuanConfig::is_sliding_layer, (&b, layer), slides),
        call_ensures(baichuan::BaichuanConfig::layer_heads, (&b, layer), heads),
    ensures
        a.head_dim matches Some(d) ==> da == d,
        a.head_dim is None ==> da == a.hidden_size as int / a.num_attention_heads as int,
        fa is Some <==> (a.rope_scaling matches Some(block) && is_kind(block, "llama3"@)),
        fa matches Some(n) ==> n == da as int / 2,
        dc == c.hidden_size as int / c.num_attention_heads as int,
        db == b.hidden_size as int / b.num_attention_heads as int,
        slides <==> exists|k: int| 0 <= k < b.sliding_window_layers@.len() && b.sliding_window_layers@[k] == layer,
        !slides || b.num_swa_attention_heads is None ==> heads == b.num_attention_heads,
        slides ==> (b.num_swa_attention_heads matches Some(n) ==> heads == n),
{
    if let Some(block) = a.rope_scaling {
        lemma_kind(block, "llama3"@);
    }
    if slides {
        let k = b.sliding_window_layers@.index_of(layer);
        assert(b.sliding_window_layers@[k] == layer);
    }
}

/// A declared group size and bit width are used as they are; a checkpoint that declares none is read in
/// groups of 64 with 4 bits.
pub proof fn quantization_defaults_are_shared(
    a: afmoe::ModelArgs,
    b: bailing_moe::ModelArgs,
    l: bailing_moe_linear::ModelArgs,
    p: apertus::ModelArgs,
    c: cohere::ModelArgs,
    d: cohere2::Cohere2Config,
    e: cohere2_moe::Cohere2MoeConfig,
    f: baichuan::BaichuanConfig,
    ra: (i32, i32),
    rb: (i32, i32),
    rl: (i32, i32),
    rp: (i32, i32),
    rc: (i32, i32),
    rd: (i32, i32),
    re: (i32, i32),
    rf: (i32, i32),
)
    requires
        call_ensures(afmoe::ModelArgs::group_size, (&a,), ra.0) && call_ensures(afmoe::ModelArgs::bits, (&a,), ra.1),
        call_ensures(bailing_moe::ModelArgs::group_size, (&b,), rb.0) && call_ensures(bailing_moe::ModelArgs::bits, (&b,), rb.1),
        call_ensures(bailing_moe_linear::ModelArgs::group_size, (&l,), rl.0) && call_ensures(
            bailing_moe_linear::ModelArgs::bits,
            (&l,),
            rl.1,
        ),
        call_ensures(apertus::ModelArgs::group_size, (&p,), rp.0) && call_ensures(apertus::ModelArgs::bits, (&p,), rp.1),
        call_ensures(cohere::ModelArgs::group_size, (&c,), rc.0) && call_ensures(cohere::ModelArgs::bits, (&c,), rc.1),
        call_ensures(cohere2::Cohere2Config::group_size, (&d,), rd.0) && call_ensures(cohere2::Cohere2Config::bits, (&d,), rd.1),
        call_ensures(cohere2_moe::Cohere2MoeConfig::group_size, (&e,), re.0) && call_ensures(
            cohere2_moe::Cohere2MoeConfig::bits,
            (&e,),
            re.1,
        ),
        call_ensures(baichuan::BaichuanConfig::group_size, (&f,), rf.0) && call_ensures(baichuan::BaichuanConfig::bits, (&f,), rf.1),
    ensures
        a.quantization is None ==> ra == (64i32, 4i32),
        a.quantization matches Some(q) ==> ra == (q.group_size, q.bits),
        b.quantization is None ==> rb == (64i32, 4i32),
        b.quantization matches Some(q) ==> rb == (q.group_size, q.bits),
        l.quantization is None ==> rl == (64i32, 4i32),
        l.quantization matches Some(q) ==> rl == (q.group_size, q.bits),
        p.quantization is None ==> rp == (64i32, 4i32),
        p.quantization matches Some(q) ==> rp == (q.group_size, q.bits),
        c.quantization is None ==> rc == (64i32, 4i32),
        c.quantization matches Some(q) ==> rc == (q.group_size, q.bits),
        d.quantization is None ==> rd == (64i32, 4i32),
        d.quantization matches Some(q) ==> rd == (q.group_size, q.bits),
        e.quantization is None ==> re == (64i32, 4i32),
        e.quantization matches Some(q) ==> re == (q.group_size, q.bits),
        f.quantization is None ==> rf == (64i32, 4i32),
        f.quantization matches Some(q) ==> rf == (q.group_size, q.bits),
{
}

/// The ids that end a generation are those that the config lists, in order, and no others; where it
/// lists none, the Cohere2 families have an id of their own and the other families end on none.
pub proof fn generation_ends_on_the_listed_ids(
    a: afmoe::ModelArgs,
    b: bailing_moe::ModelArgs,
    l: bailing_moe_linear::ModelArgs,
    c: Option<cohere2::EosTokenId>,
    m: Option<cohere2_moe::EosTokenId>,
    ra: Vec<i32>,
    rb: Vec<i32>,
    rl: Vec<i32>,
    rc: Vec<i32>,
    rm: Vec<i32>,
)
    requires
        call_ensures(afmoe::ModelArgs::eos_token_ids, (&a,), ra),
        call_ensures(bailing_moe::ModelArgs::eos_token_ids, (&b,), rb),
        call_ensures(bailing_moe_linear::ModelArgs::eos_token_ids, (&l,), rl),
        call_ensures(cohere2::eos_token_ids, (&c,), rc),
        call_ensures(cohere2_moe::eos_token_ids, (&m,), rm),
    ensures
        match a.eos_token_id {
            None => ra@.len() == 0,
            Some(afmoe::TokenIdField::Single(id)) => ra@ == seq![id],
            Some(afmoe::TokenIdField::Multiple(ids)) => ra@ == ids@,
        },
        match b.eos_token_id {
            None => rb@.len() == 0,
            Some(bailing_moe::TokenIdField::Single(id)) => rb@ == seq![id],
            Some(bailing_moe::TokenIdField::Multiple(ids)) => rb@ == ids@,
        },
        match l.eos_token_id {
            None => rl@.len() == 0,
            Some(bailing_moe_linear::TokenIdField::Single(id)) => rl@ == seq![id],
            Some(bailing_moe_linear::TokenIdField::Multiple(ids)) => rl@ == ids@,
        },
        match c {
            None => rc@ == seq![255001i32],
            Some(cohere2::EosTokenId::Single(id)) => rc@ == seq![id],
            Some(cohere2::EosTokenId::Multiple(ids)) => rc@ == ids@,
        },
        match m {
            None => rm@ == seq![255001i32],
            Some(cohere2_moe::EosTokenId::Single(id)) => rm@ == seq![id],
            Some(cohere2_moe::EosTokenId::Multiple(ids)) => rm@ == ids@,
        },
{
}

/// The output projection is read from where the config or the checkpoint says: the embedding table
/// where it is tied, and for Cohere2 MoE unless the checkpoint ships a head. Cohere scales its logits
/// by the declared factor unless that is exactly one.
pub proof fn output_projections_are_found(
    a: cohere2::Cohere2Config,
    ra: (cohere2::Cohere2Model, Steps),
    weights: WeightMap,
    m: cohere2_moe::Cohere2MoeConfig,
    rm: (cohere2_moe::Cohere2MoeModel, Steps),
    c: cohere::ModelArgs,
    rc: (cohere::CohereModel, Steps),
    scaled: bool,
    p: apertus::ModelArgs,
    rp: (apertus::ApertusModel, Steps),
    b: baichuan::BaichuanConfig,
    rb: (baichuan::BaichuanModel, Steps),
)
    requires
        call_ensures(cohere2::Cohere2Model::from_weights, (&a,), ra),
        call_ensures(cohere2_moe::Cohere2MoeModel::from_weights, (&weights, &m), rm),
        call_ensures(cohere::CohereModel::from_weights, (&c,), rc),
        call_ensures(cohere::CohereModel::forward, (&rc.0,), scaled),
        call_ensures(apertus::ApertusModel::from_weights, (&p,), rp),
        call_ensures(baichuan::BaichuanModel::from_weights, (&b,), rb),
    ensures
        ra.0.head@ == (if a.tie_word_embeddings || a.use_embedding_sharing { "model.embed_tokens"@ } else { "lm_head"@ }),
        rm.0.head@ == (if weights@.contains_key("lm_head.weight"@) { "lm_head"@ } else { "model.embed_tokens"@ }),
        scaled <==> c.logit_scale.bits != 0x3f80_0000,
        rp.0.tied == p.tie_word_embeddings,
        rb.0.tied == b.tie_word_embeddings,
{
}

/// A member of a scaling block is found under its name, the first where there are more; a name that no
/// member has finds nothing.
pub proof fn scaling_members_are_found(block: ScalingBlock, key: &str, r: Option<&serde_json::Value>)
    requires
        call_ensures(ScalingBlock::get, (&block, key), r),
    ensures
        r is None <==> lacks(block.members@, key@),
        r matches Some(v) ==> exists|i: int| #[trigger] leads(block.members@, key@, i) && block.members@[i].1 == *v,
{
    let m = block.members@;
    lemma_member(m, key@, 0);
    if let Some(v) = r {
        let i = choose|i: int|
            0 <= i < m.len() && #[trigger] m[i].0@ == key@ && m[i].1 == *v && forall|j: int| 0 <= j < i ==> #[trigger] m[j].0@
                != key@;
        assert(leads(m, key@, i));
    }
}

/// A model ends a generation on the ids of its config.
pub proof fn models_end_on_the_ids_of_their_config(
    a: afmoe::ModelArgs,
    b: bailing_moe::ModelArgs,
    l: bailing_moe_linear::ModelArgs,
    weights: WeightMap,
    answers: PackingAnswers,
    refusal: Option<&str>,
    chunked: bool,
    ma: afmoe::AfmoeModel,
    mb: bailing_moe::BailingMoeModel,
    ml: bailing_moe_linear::BailingMoeLinearModel,
    sa: Steps,
    sb: Steps,
    sl: Steps,
    ra: Vec<i32>,
    rb: Vec<i32>,
    rl: Vec<i32>,
)
    requires
        call_ensures(afmoe::AfmoeModel::from_weights, (&weights, &a, &answers, refusal), Build::Ready(ma, sa)),
        call_ensures(bailing_moe::BailingMoeModel::from_weights, (&weights, &b, &answers, refusal), Build::Ready(mb, sb)),
        call_ensures(
            bailing_moe_linear::BailingMoeLinearModel::from_weights,
            (&weights, &l, &answers, refusal, chunked),
            Build::Ready(ml, sl),
        ),
        call_ensures(afmoe::ModelArgs::eos_token_ids, (&a,), ra),
        call_ensures(bailing_moe::ModelArgs::eos_token_ids, (&b,), rb),
        call_ensures(bailing_moe_linear::ModelArgs::eos_token_ids, (&l,), rl),
    ensures
        ma.eos_token_ids@ == ra@,
        mb.eos_token_ids@ == rb@,
        ml.eos_token_ids@ == rl@,
{
}

/// Every model is laid out with as many layers as its config has, and says so.
pub proof fn models_count_their_layers(
    a: apertus::ApertusModel,
    c: cohere::CohereModel,
    d: cohere2::Cohere2Model,
    e: cohere2_moe::Cohere2MoeModel,
    f: baichuan::BaichuanModel,
    g: afmoe::AfmoeModel,
    b: bailing_moe::BailingMoeModel,
    l: bailing_moe_linear::BailingMoeLinearModel,
    n: Seq<usize>,
)
    requires
        n.len() == 8,
        call_ensures(apertus::ApertusModel::num_layers, (&a,), n[0]),
        call_ensures(cohere::CohereModel::num_layers, (&c,), n[1]),
        call_ensures(cohere2::Cohere2Model::num_layers, (&d,), n[2]),
        call_ensures(cohere2_moe::Cohere2MoeModel::num_layers, (&e,), n[3]),
        call_ensures(baichuan::BaichuanModel::num_layers, (&f,), n[4]),
        call_ensures(afmoe::AfmoeModel::num_layers, (&g,), n[5]),
        call_ensures(bailing_moe::BailingMoeModel::num_layers, (&b,), n[6]),
        call_ensures(bailing_moe_linear::BailingMoeLinearModel::num_layers, (&l,), n[7]),
    ensures
        n == seq![
            a.layers@.len() as usize,
            c.layers@.len() as usize,
            d.layers@.len() as usize,
            e.layers@.len() as usize,
            f.layers@.len() as usize,
            g.layers@.len() as usize,
            b.layers@.len() as usize,
            l.layers@.len() as usize,
        ],
{
}

/// What a config of AFMoE that leaves a field out is read as.
pub proof fn afmoe_defaults(
    model_type: String,
    vocab_size: usize,
    hidden_size: usize,
    intermediate_size: usize,
    moe_intermediate_size: usize,
    num_hidden_layers: usize,
    num_attention_heads: usize,
    num_key_value_heads: usize,
    head_dim: usize,
    max_position_embeddings: usize,
    rms_norm_eps: Single,
    rope_theta: Single,
    route_scale: Single,
    num_experts: usize,
    num_experts_per_tok: usize,
    num_shared_experts: usize,
    num_dense_layers: usize,
    on: bool,
    score_func: String,
    n_group: usize,
    topk_group: usize,
    sliding_window: usize,
)
    requires
        call_ensures(afmoe::default_model_type, (), model_type),
        call_ensures(afmoe::default_vocab_size, (), vocab_size),
        call_ensures(afmoe::default_hidden_size, (), hidden_size),
        call_ensures(afmoe::default_intermediate_size, (), intermediate_size),
        call_ensures(afmoe::default_moe_intermediate_size, (), moe_intermediate_size),
        call_ensures(afmoe::default_num_hidden_layers, (), num_hidden_layers),
        call_ensures(afmoe::default_num_attention_heads, (), num_attention_heads),
        call_ensures(afmoe::default_num_key_value_heads, (), num_key_value_heads),
        call_ensures(afmoe::default_head_dim, (), head_dim),
        call_ensures(afmoe::default_max_position_embeddings, (), max_position_embeddings),
        call_ensures(afmoe::default_rms_norm_eps, (), rms_norm_eps),
        call_ensures(afmoe::default_rope_theta, (), rope_theta),
        call_ensures(afmoe::default_route_scale, (), route_scale),
        call_ensures(afmoe::default_num_experts, (), num_experts),
        call_ensures(afmoe::default_num_experts_per_tok, (), num_experts_per_tok),
        call_ensures(afmoe::default_num_shared_experts, (), num_shared_experts),
        call_ensures(afmoe::default_num_dense_layers, (), num_dense_layers),
        call_ensures(afmoe::default_true, (), on),
        call_ensures(afmoe::default_score_func, (), score_func),
        call_ensures(afmoe::default_n_group, (), n_group),
        call_ensures(afmoe::default_topk_group, (), topk_group),
        call_ensures(afmoe::default_sliding_window, (), sliding_window),
    ensures
        model_type@ == "afmoe"@,
        vocab_size == 200_192,
        hidden_size == 2048,
        intermediate_size == 6144,
        moe_intermediate_size == 1024,
        num_hidden_layers == 32,
        num_attention_heads == 32,
        num_key_value_heads == 4,
        head_dim == 64,
        max_position_embeddings == 131_072,
        rms_norm_eps.bits == 0x3727_c5ac,
        rope_theta.bits == 0x461c_4000,
        route_scale.bits == 0x4034_dd2f,
        num_experts == 128,
        num_experts_per_tok == 8,
        num_shared_experts == 1,
        num_dense_layers == 2,
        on,
        score_func@ == "sigmoid"@,
        n_group == 1,
        topk_group == 1,
        sliding_window == 2048,
{
}

/// What a config of Bailing MoE that leaves a field out is read as.
pub proof fn bailing_moe_defaults(
    model_type: String,
    num_experts_per_tok: usize,
    norm_topk_prob: bool,
    max_position_embeddings: usize,
    on: bool,
    score_function: String,
    n_group: usize,
    topk_group: usize,
    rms_norm_eps: Single,
    rope_theta: Single,
    partial_rotary_factor: Single,
    routed_scaling_factor: Single,
)
    requires
        call_ensures(bailing_moe::default_model_type, (), model_type),
        call_ensures(bailing_moe::default_num_experts_per_tok, (), num_experts_per_tok),
        call_ensures(bailing_moe::default_norm_topk_prob, (), norm_topk_prob),
        call_ensures(bailing_moe::default_max_position_embeddings, (), max_position_embeddings),
        call_ensures(bailing_moe::default_true, (), on),
        call_ensures(bailing_moe::default_score_function, (), score_function),
        call_ensures(bailing_moe::default_n_group, (), n_group),
        call_ensures(bailing_moe::default_topk_group, (), topk_group),
        call_ensures(bailing_moe::default_rms_norm_eps, (), rms_norm_eps),
        call_ensures(bailing_moe::default_rope_theta, (), rope_theta),
        call_ensures(bailing_moe::default_partial_rotary_factor, (), partial_rotary_factor),
        call_ensures(bailing_moe::default_routed_scaling_factor, (), routed_scaling_factor),
    ensures
        model_type@ == "bailing_moe"@,
        num_experts_per_tok == 1,
        norm_topk_prob,
        max_position_embeddings == 32_768,
        on,
        score_function@ == "softmax"@,
        n_group == 1,
        topk_group == 4,
        rms_norm_eps.bits == 0x3586_37bd,
        rope_theta.bits == 0x4912_7c00,
        partial_rotary_factor.bits == 0x3f80_0000,
        routed_scaling_factor.bits == 0x3f80_0000,
{
}

/// What a config of the linear family that leaves a field out is read as.
pub proof fn bailing_moe_linear_defaults(
    model_type: String,
    num_experts_per_tok: usize,
    norm_topk_prob: bool,
    layer_group_size: usize,
    group_norm_size: usize,
    max_position_embeddings: usize,
    on: bool,
    score_function: String,
    n_group: usize,
    topk_group: usize,
    rms_norm_eps: Single,
    rope_theta: Single,
    partial_rotary_factor: Single,
    routed_scaling_factor: Single,
)
    requires
        call_ensures(bailing_moe_linear::default_model_type, (), model_type),
        call_ensures(bailing_moe_linear::default_num_experts_per_tok, (), num_experts_per_tok),
        call_ensures(bailing_moe_linear::default_norm_topk_prob, (), norm_topk_prob),
        call_ensures(bailing_moe_linear::default_layer_group_size, (), layer_group_size),
        call_ensures(bailing_moe_linear::default_group_norm_size, (), group_norm_size),
        call_ensures(bailing_moe_linear::default_max_position_embeddings, (), max_position_embeddings),
        call_ensures(bailing_moe_linear::default_true, (), on),
        call_ensures(bailing_moe_linear::default_score_function, (), score_function),
        call_ensures(bailing_moe_linear::default_n_group, (), n_group),
        call_ensures(bailing_moe_linear::default_topk_group, (), topk_group),
        call_ensures(bailing_moe_linear::default_rms_norm_eps, (), rms_norm_eps),
        call_ensures(bailing_moe_linear::default_rope_theta, (), rope_theta),
        call_ensures(bailing_moe_linear::default_partial_rotary_factor, (), partial_rotary_factor),
        call_ensures(bailing_moe_linear::default_routed_scaling_factor, (), routed_scaling_factor),
    ensures
        model_type@ == "bailing_moe_linear"@,
        num_experts_per_tok == 1,
        norm_topk_prob,
        layer_group_size == 1,
        group_norm_size == 1,
        max_position_embeddings == 32_768,
        on,
        score_function@ == "softmax"@,
        n_group == 1,
        topk_group == 4,
        rms_norm_eps.bits == 0x3586_37bd,
        rope_theta.bits == 0x4912_7c00,
        partial_rotary_factor.bits == 0x3f80_0000,
        routed_scaling_factor.bits == 0x3f80_0000,
{
}

/// What a config of Cohere2 MoE that leaves a field out is read as.
pub proof fn cohere2_moe_defaults(
    hidden_size: usize,
    head_dim: usize,
    num_hidden_layers: usize,
    intermediate_size: usize,
    num_attention_heads: usize,
    num_key_value_heads: usize,
    rope_theta: Single,
    layer_norm_eps: Single,
    logit_scale: Single,
    vocab_size: usize,
    sliding_window: usize,
    sliding_window_pattern: usize,
    num_experts: usize,
    num_experts_per_tok: usize,
    on: bool,
    moe_gate_act: String,
    moe_num_shared_experts: usize,
    shared_combination: String,
    prefix_dense_sliding_window_pattern: usize,
)
    requires
        call_ensures(cohere2_moe::default_hidden_size, (), hidden_size),
        call_ensures(cohere2_moe::default_head_dim, (), head_dim),
        call_ensures(cohere2_moe::default_num_hidden_layers, (), num_hidden_layers),
        call_ensures(cohere2_moe::default_intermediate_size, (), intermediate_size),
        call_ensures(cohere2_moe::default_num_attention_heads, (), num_attention_heads),
        call_ensures(cohere2_moe::default_num_key_value_heads, (), num_key_value_heads),
        call_ensures(cohere2_moe::default_rope_theta, (), rope_theta),
        call_ensures(cohere2_moe::default_layer_norm_eps, (), layer_norm_eps),
        call_ensures(cohere2_moe::default_logit_scale, (), logit_scale),
        call_ensures(cohere2_moe::default_vocab_size, (), vocab_size),
        call_ensures(cohere2_moe::default_sliding_window, (), sliding_window),
        call_ensures(cohere2_moe::default_sliding_window_pattern, (), sliding_window_pattern),
        call_ensures(cohere2_moe::default_num_experts, (), num_experts),
        call_ensures(cohere2_moe::default_num_experts_per_tok, (), num_experts_per_tok),
        call_ensures(cohere2_moe::default_true, (), on),
        call_ensures(cohere2_moe::default_moe_gate_act, (), moe_gate_act),
        call_ensures(cohere2_moe::default_moe_num_shared_experts, (), moe_num_shared_experts),
        call_ensures(cohere2_moe::default_shared_combination, (), shared_combination),
        call_ensures(cohere2_moe::default_prefix_dense_sliding_window_pattern, (), prefix_dense_sliding_window_pattern),
    ensures
        hidden_size == 1024,
        head_dim == 128,
        num_hidden_layers == 36,
        intermediate_size == 1024,
        num_attention_heads == 64,
        num_key_value_heads == 8,
        rope_theta.bits == 0x4743_5000,
        layer_norm_eps.bits == 0x3727_c5ac,
        logit_scale.bits == 0x3d80_0000,
        vocab_size == 256_000,
        sliding_window == 4096,
        sliding_window_pattern == 4,
        num_experts == 128,
        num_experts_per_tok == 8,
        on,
        moe_gate_act@ == "sigmoid"@,
        moe_num_shared_experts == 4,
        shared_combination@ == "average"@,
        prefix_dense_sliding_window_pattern == 1,
{
}

/// What a config of Apertus that leaves a field out is read as.
pub proof fn apertus_defaults(
    rope_theta: Single,
    beta: Single,
    eps: Single,
)
    requires
        call_ensures(apertus::default_rope_theta, (), rope_theta),
        call_ensures(apertus::default_beta, (), beta),
        call_ensures(apertus::default_eps, (), eps),
    ensures
        rope_theta.bits == 0x461c_4000,
        beta.bits == 0x3f00_0000,
        eps.bits == 0xb586_37bd,
{
}

/// The families whose config lists no ids end a generation on ids of their own.
pub proof fn plain_families_end_on_their_own_ids(
    a: apertus::ApertusModel,
    c: cohere::CohereModel,
    b: baichuan::BaichuanModel,
    ra: Vec<i32>,
    rc: Vec<i32>,
    rb: Vec<i32>,
)
    requires
        call_ensures(apertus::ApertusModel::eos_token_ids, (&a,), ra),
        call_ensures(cohere::CohereModel::eos_token_ids, (&c,), rc),
        call_ensures(baichuan::BaichuanModel::eos_token_ids, (&b,), rb),
    ensures
        ra@ == seq![2i32, 68, 72],
        rc@ == seq![255001i32],
        rb@ == seq![2i32],
{
}

} // verus!
