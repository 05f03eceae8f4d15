//! What every router does with every row of logits, and how every sparse block lays out its input.
use vstd::prelude::*;
use crate::afmoe;
use crate::bailing_moe;
use crate::bailing_moe_linear;
use crate::cohere2_moe;
use crate::plan::{elements, Basis, Divisor, FlatPlan, Precision, RoutePlan, Scoring};
use crate::steps::{Build, Steps};
use crate::text::{dec, lower};
use crate::weights::{PackingAnswers, WeightMap};

verus! {

/// Position `q` of a row of `n`, partitioned around the plan's pivot, is selected.
pub open spec fn selected(p: RoutePlan, n: int, q: int) -> bool {
    p.first <= q < (if p.stop == -1 { n } else { p.stop as int })
}

/// Of a row of `n` the plan selects `k`, and no expert that it passes over has a larger entry than
/// one that it selects. A partition puts the entries that belong before the pivot before it and the
/// others behind it, so the selected positions are one whole side of the pivot, with the pivot.
pub open spec fn takes_the_largest(p: RoutePlan, n: int, k: int) -> bool {
    &&& 0 <= p.kth < n
    &&& forall|q: int|
        0 <= q < n ==> (#[trigger] selected(p, n, q) <==> (if p.descending { q <= p.kth } else { q >= p.kth }))
    &&& forall|q: int| #[trigger] selected(p, n, q) ==> 0 <= q < n
    &&& k == (if p.descending { p.kth + 1 } else { n - p.kth })
}

/// Every Bailing router takes the experts with the largest entries, as many as it is told to.
pub proof fn bailing_router_takes_the_largest(gate: bailing_moe::BailingMoeGate, n_experts: i32, r: RoutePlan)
    requires
        call_ensures(bailing_moe::BailingMoeGate::forward, (&gate, n_experts), r),
        1 <= gate.top_k <= n_experts,
    ensures
        takes_the_largest(r, n_experts as int, gate.top_k as int),
{
}

/// A row shorter than the number of experts to pick is picked whole.
pub proof fn bailing_router_takes_a_short_row_whole(gate: bailing_moe::BailingMoeGate, n_experts: i32, r: RoutePlan, q: int)
    requires
        call_ensures(bailing_moe::BailingMoeGate::forward, (&gate, n_experts), r),
        0 <= q < n_experts <= gate.top_k,
    ensures
        selected(r, n_experts as int, q),
{
}

/// The weights of every Bailing router are divided by their sum plus 1e-20 exactly where it picks more
/// than one expert and is told to normalize: whatever it scores by, with or without a bias, with or
/// without groups. They are multiplied by the scaling factor in every case, and come back in the
/// precision of the logits.
pub proof fn bailing_router_normalizes_when_told(gate: bailing_moe::BailingMoeGate, n_experts: i32, r: RoutePlan)
    requires
        call_ensures(bailing_moe::BailingMoeGate::forward, (&gate, n_experts), r),
    ensures
        r.divisor is Some <==> gate.top_k > 1 && gate.norm_topk_prob,
        r.divisor matches Some(d) ==> d == Divisor::SumPlus(0x1e3c_e508),
        r.scale == Some(gate.routed_scaling_factor.bits),
        r.weights_in == Precision::Logits,
{
}

/// Two Bailing routers that pick as many experts and normalize alike divide their weights alike.
pub proof fn bailing_divisor_depends_on_two_settings_only(
    gate: bailing_moe::BailingMoeGate,
    other: bailing_moe::BailingMoeGate,
    n_experts: i32,
    m_experts: i32,
    r: RoutePlan,
    s: RoutePlan,
)
    requires
        call_ensures(bailing_moe::BailingMoeGate::forward, (&gate, n_experts), r),
        call_ensures(bailing_moe::BailingMoeGate::forward, (&other, m_experts), s),
        gate.top_k == other.top_k,
        gate.norm_topk_prob == other.norm_topk_prob,
    ensures
        r.divisor == s.divisor,
{
}

/// The bias of a Bailing router decides who is picked, never what a picked expert weighs. Scores are
/// the sigmoid or the softmax as configured; groups are formed exactly where there is more than one.
pub proof fn bailing_bias_enters_the_selection_only(gate: bailing_moe::BailingMoeGate, n_experts: i32, r: RoutePlan)
    requires
        call_ensures(bailing_moe::BailingMoeGate::forward, (&gate, n_experts), r),
    ensures
        r.weighed_by == Basis::Score,
        r.selected_by == (if gate.expert_bias is Some { Basis::BiasedScore } else { Basis::Score }),
        r.scoring == (match gate.score_function {
            bailing_moe::ScoreFunction::Sigmoid => Scoring::Sigmoid,
            bailing_moe::ScoreFunction::Softmax => Scoring::Softmax,
        }),
        r.groups is Some <==> gate.n_group > 1,
        r.groups matches Some(g) ==> g == (gate.n_group, gate.topk_group),
{
}

/// Groups that hold at least two experts each are no more than the experts.
proof fn lemma_groups_are_few(experts: int, groups: int)
    ensures
        groups > 0 && experts / groups >= 2 ==> groups <= experts,
{
    if groups > 0 && experts / groups >= 2 {
        vstd::arithmetic::div_mod::lemma_fundamental_div_mod(experts, groups);
        vstd::arithmetic::div_mod::lemma_mod_bound(experts, groups);
        assert(groups * (experts / groups) >= groups * 2) by (nonlinear_arith)
            requires groups > 0, experts / groups >= 2;
    }
}

/// The router of a sparse Bailing layer is what the config says, field by field.
pub open spec fn gate_of(
    gate: bailing_moe::BailingMoeGate,
    experts: Option<usize>,
    bias: bool,
    top_k: usize,
    n_group: usize,
    topk_group: usize,
    scale_bits: u32,
    normalize: bool,
    score: Seq<char>,
) -> bool {
    &&& experts matches Some(n) && n > 0 && (gate.expert_bias is Some <==> bias) && (gate.expert_bias matches Some(b) ==> b == n)
    &&& gate.top_k == top_k
    &&& gate.n_group == n_group
    &&& gate.topk_group == (if topk_group > i32::MAX { i32::MAX as int } else { topk_group as int })
    &&& gate.routed_scaling_factor.bits == scale_bits
    &&& gate.norm_topk_prob == normalize
    &&& gate.score_function == (if score == "sigmoid"@ {
        bailing_moe::ScoreFunction::Sigmoid
    } else {
        bailing_moe::ScoreFunction::Softmax
    })
}

/// The router of a sparse block is read from the converted name where that is stored, else from the raw
/// one.
pub open spec fn router_of(gate: bailing_moe::BailingMoeGate, w: Map<Seq<char>, Seq<i32>>, i: int) -> bool {
    let m = "model.layers."@ + dec(i as nat) + ".mlp"@;
    gate.gate_proj@ == (if w.contains_key(m + ".gate.gate_proj"@ + ".weight"@) {
        m + ".gate.gate_proj"@
    } else {
        m + ".gate"@
    })
}

/// A layer of Bailing MoE is sparse exactly where it lies past the dense prefix of a model with routed
/// experts. Its router is that of the config, and it has a shared expert exactly where the config
/// counts and enables one.
pub proof fn bailing_sparse_layers_follow_the_config(
    args: bailing_moe::ModelArgs,
    weights: WeightMap,
    answers: PackingAnswers,
    refusal: Option<&str>,
    model: bailing_moe::BailingMoeModel,
    steps: Steps,
    i: int,
)
    requires
        call_ensures(
            bailing_moe::BailingMoeModel::from_weights,
            (&weights, &args, &answers, refusal),
            Build::Ready(model, steps),
        ),
        0 <= i < model.layers@.len(),
    ensures
        model.layers@.len() == args.num_hidden_layers,
        match model.layers@[i].mlp {
            bailing_moe::FeedForward::Sparse(b) => {
                &&& i >= args.first_k_dense_replace
                &&& router_of(b.gate, weights@, i)
                &&& gate_of(
                    b.gate,
                    args.num_experts,
                    args.moe_router_enable_expert_bias,
                    args.num_experts_per_tok,
                    args.n_group,
                    args.topk_group,
                    args.routed_scaling_factor.bits,
                    args.norm_topk_prob,
                    args.score_function@,
                )
                &&& b.shared_experts is Some <==> args.num_shared_experts > 0 && args.moe_router_enable_shared_expert
            },
            bailing_moe::FeedForward::Dense(_) => i < args.first_k_dense_replace || args.num_experts is None
                || args.num_experts == Some(0usize),
        },
{
    assert(model.layers@[i].describes(args, i));
    assert(model.layers@[i].finds_router(weights@, i));
    bailing_moe::validated_config_is_usable(args, refusal);
    if let Some(n) = args.num_experts {
        lemma_groups_are_few(n as int, args.n_group as int);
    }
}

/// A layer of the linear family is sparse exactly where it lies past the dense prefix of a model with
/// routed experts, with the router and the shared expert of its config.
pub proof fn ling_sparse_layers_follow_the_config(
    args: bailing_moe_linear::ModelArgs,
    weights: WeightMap,
    answers: PackingAnswers,
    refusal: Option<&str>,
    chunked_prefill: bool,
    model: bailing_moe_linear::BailingMoeLinearModel,
    steps: Steps,
    i: int,
)
    requires
        call_ensures(
            bailing_moe_linear::BailingMoeLinearModel::from_weights,
            (&weights, &args, &answers, refusal, chunked_prefill),
            Build::Ready(model, steps),
        ),
        0 <= i < model.layers@.len(),
    ensures
        model.layers@.len() == args.num_hidden_layers,
        match model.layers@[i].mlp {
            bailing_moe_linear::FeedForward::Sparse(b) => {
                &&& i >= args.first_k_dense_replace
                &&& router_of(b.gate, weights@, i)
                &&& gate_of(
                    b.gate,
                    args.num_experts,
                    args.moe_router_enable_expert_bias,
                    args.num_experts_per_tok,
                    args.n_group,
                    args.topk_group,
                    args.routed_scaling_factor.bits,
                    args.norm_topk_prob,
                    args.score_function@,
                )
                &&& b.shared_experts is Some <==> args.num_shared_experts > 0 && args.moe_router_enable_shared_expert
            },
            bailing_moe_linear::FeedForward::Dense(_) => i < args.first_k_dense_replace || args.num_experts is None
                || args.num_experts == Some(0usize),
        },
{
    assert(model.layers@[i].describes(args, i, chunked_prefill));
    assert(model.layers@[i].finds_router(weights@, i));
    bailing_moe_linear::validated_config_is_usable(args, refusal);
    if let Some(n) = args.num_experts {
        lemma_groups_are_few(n as int, args.n_group as int);
    }
}

/// Every AFMoE router takes the experts with the largest biased scores, as many as it is told to.
pub proof fn afmoe_router_takes_the_largest(moe: afmoe::AfmoeMoe, n_experts: i32, r: RoutePlan)
    requires
        call_ensures(afmoe::AfmoeMoe::route, (&moe, n_experts), r),
        1 <= moe.top_k <= n_experts,
    ensures
        takes_the_largest(r, n_experts as int, moe.top_k as int),
{
}

/// The pivot of an AFMoE router lies inside the row however many experts it is told to pick.
pub proof fn afmoe_pivot_stays_inside_the_row(moe: afmoe::AfmoeMoe, n_experts: i32, r: RoutePlan)
    requires
        call_ensures(afmoe::AfmoeMoe::route, (&moe, n_experts), r),
        n_experts >= 1,
    ensures
        0 <= r.kth < n_experts,
        moe.top_k >= n_experts ==> r.kth == n_experts - 1,
        moe.top_k <= 1 ==> r.kth == 0,
        r.descending && r.first == 0 && r.stop == moe.top_k,
{
}

/// The weights of every AFMoE router are divided by their sum exactly where it picks more than one
/// expert and is told to normalize, and multiplied by the route scale in every case; they stay in
/// single precision. The bias decides who is picked, never what a picked expert weighs.
pub proof fn afmoe_router_normalizes_when_told(moe: afmoe::AfmoeMoe, n_experts: i32, r: RoutePlan)
    requires
        call_ensures(afmoe::AfmoeMoe::route, (&moe, n_experts), r),
    ensures
        r.divisor is Some <==> moe.top_k > 1 && moe.route_norm,
        r.divisor matches Some(d) ==> d == Divisor::Sum,
        r.scale == Some(moe.route_scale.bits),
        r.weights_in == Precision::Single,
        r.selected_by == Basis::BiasedScore,
        r.weighed_by == Basis::Score,
        r.scoring == (match moe.score_func {
            afmoe::ScoreFunc::Sigmoid => Scoring::Sigmoid,
            afmoe::ScoreFunc::Softmax => Scoring::Softmax,
        }),
        r.groups is Some <==> moe.n_group > 1,
        r.groups matches Some(g) ==> g == (moe.n_group, moe.topk_group),
{
}

/// The router of a sparse AFMoE layer is what the config says, field by field.
pub proof fn afmoe_sparse_layers_follow_the_config(
    args: afmoe::ModelArgs,
    weights: WeightMap,
    answers: PackingAnswers,
    refusal: Option<&str>,
    model: afmoe::AfmoeModel,
    steps: Steps,
    i: int,
)
    requires
        call_ensures(
            afmoe::AfmoeModel::from_weights,
            (&weights, &args, &answers, refusal),
            Build::Ready(model, steps),
        ),
        0 <= i < model.layers@.len(),
    ensures
        match model.layers@[i].mlp {
            afmoe::FeedForward::Sparse(m) => {
                &&& i >= args.num_dense_layers
                &&& m.num_experts == args.num_experts
                &&& m.shared_experts is Some <==> args.num_shared_experts > 0
                &&& m.top_k == args.num_experts_per_tok
                &&& m.n_group == args.n_group
                &&& m.topk_group == (if args.topk_group > i32::MAX { i32::MAX as int } else { args.topk_group as int })
                &&& m.route_norm == args.route_norm
                &&& m.route_scale.bits == args.route_scale.bits
                &&& m.score_func == (if args.score_func@ == "softmax"@ {
                    afmoe::ScoreFunc::Softmax
                } else {
                    afmoe::ScoreFunc::Sigmoid
                })
            },
            afmoe::FeedForward::Dense(_) => i < args.num_dense_layers,
        },
{
    afmoe::validated_config_is_usable(args, refusal);
    assert(model.layers@[i].describes(args, i));
    lemma_groups_are_few(args.num_experts as int, args.n_group as int);
}

/// The Cohere2 MoE router takes the experts with the largest logits, as many as it is told to, and
/// weighs them by their scores. Where it normalizes, whatever it scores by and however many it picks,
/// the weights are divided by their sum, or by 1e-12 where that is larger; nothing else is done to
/// them, and they stay in single precision.
pub proof fn cohere2_moe_router_takes_the_largest(
    n_experts: i32,
    k: i32,
    gate_is_sigmoid: bool,
    norm_topk_prob: bool,
    r: RoutePlan,
)
    requires
        call_ensures(cohere2_moe::router_topk_scores, (n_experts, k, gate_is_sigmoid, norm_topk_prob), r),
        1 <= k <= n_experts,
    ensures
        takes_the_largest(r, n_experts as int, k as int),
        r.divisor is Some <==> norm_topk_prob,
        r.divisor matches Some(d) ==> d == Divisor::SumAtLeast(0x2b8c_bccc),
        r.scale is None,
        r.groups is None,
        r.weights_in == Precision::Single,
        r.selected_by == Basis::Logit,
        r.weighed_by == Basis::Score,
        r.scoring == (if gate_is_sigmoid { Scoring::Sigmoid } else { Scoring::PreciseSoftmax }),
{
}

/// A sparse Cohere2 MoE layer routes as its config says. Its shared experts, where there are any, are
/// averaged with the routed ones unless the config asks for their sum.
pub proof fn cohere2_moe_sparse_layers_follow_the_config(
    args: cohere2_moe::Cohere2MoeConfig,
    weights: WeightMap,
    r: (cohere2_moe::Cohere2MoeModel, Steps),
    i: int,
    b: cohere2_moe::Cohere2MoeSparseBlock,
    n_experts: i32,
    p: RoutePlan,
    c: cohere2_moe::Combination,
)
    requires
        call_ensures(cohere2_moe::Cohere2MoeModel::from_weights, (&weights, &args), r),
        0 <= i < r.0.layers@.len(),
        r.0.layers@[i].ffn == cohere2_moe::Cohere2MoeFFN::Sparse(b),
        call_ensures(cohere2_moe::Cohere2MoeSparseBlock::route, (&b, n_experts), p),
        call_ensures(cohere2_moe::Cohere2MoeSparseBlock::combine_shared_expert, (&b,), c),
        1 <= args.num_experts_per_tok <= n_experts,
    ensures
        takes_the_largest(p, n_experts as int, args.num_experts_per_tok as int),
        p.divisor is Some <==> args.norm_topk_prob,
        p.divisor matches Some(d) ==> d == Divisor::SumAtLeast(0x2b8c_bccc),
        p.selected_by == Basis::Logit && p.weighed_by == Basis::Score && p.scale is None && p.groups is None,
        p.weights_in == Precision::Single,
        ({
            let activation = match args.expert_selection_fn {
                Some(a) => a@,
                None => args.moe_gate_act@,
            };
            p.scoring == (if lower(activation) == "softmax"@ { Scoring::PreciseSoftmax } else { Scoring::Sigmoid })
        }),
        ({
            let shared = match args.num_shared_experts {
                Some(n) => n,
                None => args.moe_num_shared_experts,
            };
            c == (if shared == 0 {
                cohere2_moe::Combination::Routed
            } else if lower(args.shared_expert_combination_strategy@) == "sum"@ {
                cohere2_moe::Combination::Sum
            } else {
                cohere2_moe::Combination::Average
            })
        }),
{
    assert(r.0.layers@[i].describes(args, i));
}

/// Rows times columns of the flattened input are all the elements of the input, and the columns are its
/// last axis. A flat input is left as it is. A single row, and only that, may take the short path.
pub open spec fn flattens(p: FlatPlan, s: Seq<i32>) -> bool {
    &&& p.hidden == s[s.len() - 1]
    &&& p.tokens is Some <==> s.len() > 2
    &&& p.tokens matches Some(t) ==> t * p.hidden == elements(s) && (p.single_token <==> t == 1)
    &&& s.len() == 2 ==> (p.single_token <==> s[0] == 1)
}

proof fn lemma_flattens(s: Seq<i32>, p: FlatPlan)
    requires
        s.len() >= 2,
        p == crate::plan::flat_plan(s),
        crate::plan::countable(s.drop_last()),
    ensures
        flattens(p, s),
{
    let lead = s.drop_last();
    assert(lead.subrange(0, lead.len() as int) =~= lead);
}

/// Every sparse block keeps all elements of an input `[.., hidden]` that can be counted, one row for
/// each token.
pub proof fn sparse_blocks_flatten_without_loss(
    a: afmoe::AfmoeMoe,
    b: bailing_moe::BailingMoeSparseBlock,
    c: cohere2_moe::Cohere2MoeSparseBlock,
    x: Vec<i32>,
    pa: FlatPlan,
    pb: FlatPlan,
    pc: FlatPlan,
)
    requires
        x@.len() >= 2,
        forall|k: int|
            0 <= k < x@.len() ==> i32::MIN <= #[trigger] elements(x@.drop_last().subrange(0, k)) <= i32::MAX,
        call_ensures(afmoe::AfmoeMoe::forward, (&a, &x), pa),
        call_ensures(bailing_moe::BailingMoeSparseBlock::forward, (&b, &x), pb),
        call_ensures(cohere2_moe::Cohere2MoeSparseBlock::forward, (&c, &x), pc),
    ensures
        flattens(pa, x@),
        flattens(pb, x@),
        flattens(pc, x@),
{
    lemma_flattens(x@, pa);
    lemma_flattens(x@, pb);
    lemma_flattens(x@, pc);
}

/// The number of elements of a shape is the product of its axes: none give one element, and one more
/// axis gives as many times more.
pub proof fn elements_are_counted(s: Seq<i32>, n: i32)
    ensures
        elements(Seq::<i32>::empty()) == 1,
        elements(s.push(n)) == elements(s) * n,
{
    assert(s.push(n).drop_last() =~= s);
}

/// A router is found under the converted name where that is stored, else under the raw one, and is
/// missing exactly where neither is. A sparse layer reads it from there.
pub proof fn routers_are_found_in_either_spelling(weights: WeightMap, mlp: &str, r: Result<String, String>)
    requires
        call_ensures(bailing_moe::router_prefix, (&weights, mlp), r),
    ensures
        r is Err <==> !weights@.contains_key(mlp@ + ".gate.gate_proj"@ + ".weight"@) && !weights@.contains_key(
            mlp@ + ".gate"@ + ".weight"@,
        ),
        r matches Ok(p) ==> p@ == (if weights@.contains_key(mlp@ + ".gate.gate_proj"@ + ".weight"@) {
            mlp@ + ".gate.gate_proj"@
        } else {
            mlp@ + ".gate"@
        }),
{
}

/// The routed weights are scaled in every case, so a config that asks otherwise is warned exactly where
/// that shows: it has routed experts, clears the flag, and has a factor other than one.
pub proof fn ignored_scaling_flags_are_told(
    args: bailing_moe::ModelArgs,
    other: bailing_moe_linear::ModelArgs,
    r: bool,
    w: Option<String>,
    s: bool,
    v: Option<String>,
)
    requires
        call_ensures(bailing_moe::ModelArgs::routed_scaling_flag_is_ignored_observably, (&args,), r),
        call_ensures(bailing_moe::ModelArgs::warn_on_ignored_routed_scaling_flag, (&args,), w),
        call_ensures(bailing_moe_linear::ModelArgs::routed_scaling_flag_is_ignored_observably, (&other,), s),
        call_ensures(bailing_moe_linear::ModelArgs::warn_on_ignored_routed_scaling_flag, (&other,), v),
    ensures
        r <==> (args.num_experts matches Some(n) && n > 0) && !args.moe_router_enable_routed_scaling
            && args.routed_scaling_factor.bits != 0x3f80_0000,
        w is Some <==> r,
        s <==> (other.num_experts matches Some(n) && n > 0) && !other.moe_router_enable_routed_scaling
            && other.routed_scaling_factor.bits != 0x3f80_0000,
        v is Some <==> s,
{
}

} // verus!
