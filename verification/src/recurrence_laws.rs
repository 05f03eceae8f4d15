//! What the layers with a recurrence promise of every pass: their chunks and decays, their groups,
//! their caches, and how they alternate with full attention.
use vstd::arithmetic::power2::{lemma2_to64, lemma_pow2_adds, lemma_pow2_pos, pow2};
use vstd::prelude::*;
use vstd::string::*;
use crate::attention_laws::{causal, splits, turns};
use crate::afmoe;
use crate::baichuan::ConvStates;
use crate::bailing_moe;
use crate::bailing_moe::BailingMoeModel;
use crate::bailing_moe_linear;
use crate::bailing_moe_linear::{
    AttentionKind, BailingLinearCache, BailingMoeLinearModel, ChunkPlan, DecoderLayer, GroupRMSNorm, KvCache,
    LinearAttention, LinearAttentionCache, ModelArgs, Pairing, Recurrence, Slope, Snapshot, StepRange,
};
use crate::plan::{AttendPlan, HeadPlan, QkvCut};
use crate::single::{scaled_width, Single};
use crate::steps::{Build, Steps};
use crate::text::{lower, trim};
use crate::weights::{PackingAnswers, WeightMap};

verus! {

/// The chunks of a prefill cover it from the first token to the last, end to end, so every token is in
/// exactly one of them. All have the asked length but the last, which may be shorter. Only the first
/// chunk of a prefill without a state begins with none.
pub proof fn chunks_cover_the_prefill(total: i32, chunk: i32, has_state: bool, r: Vec<ChunkPlan>, i: int)
    requires
        total >= 1,
        chunk >= 1,
        call_ensures(bailing_moe_linear::gla_chunked, (total, chunk, has_state), r),
        0 <= i < r@.len(),
    ensures
        r@[0].start == 0,
        i + 1 < r@.len() ==> r@[i].start + r@[i].len == r@[i + 1].start && r@[i].len == chunk,
        i + 1 == r@.len() ==> r@[i].start + r@[i].len == total && 1 <= r@[i].len <= chunk,
        r@[i].carry <==> has_state || i > 0,
{
    bailing_moe_linear::chunks_partition_the_prefill(total as int, chunk as int, has_state, i);
    assert(0 * (chunk as int) == 0);
    assert(r@[0] == bailing_moe_linear::chunk_at(total as int, chunk as int, has_state, 0));
    if i + 1 < r@.len() {
        assert(r@[i + 1] == bailing_moe_linear::chunk_at(total as int, chunk as int, has_state, i + 1));
        assert((i + 1) * chunk == i * chunk + chunk) by (nonlinear_arith);
        bailing_moe_linear::chunks_partition_the_prefill(total as int, chunk as int, has_state, i + 1);
    }
}

/// A prefill has at least one chunk.
pub proof fn prefill_has_a_chunk(total: i32, chunk: i32, has_state: bool, r: Vec<ChunkPlan>)
    requires
        total >= 1,
        chunk >= 1,
        call_ensures(bailing_moe_linear::gla_chunked, (total, chunk, has_state), r),
    ensures
        r@.len() >= 1,
{
    vstd::arithmetic::div_mod::lemma_div_is_ordered(chunk as int, total + chunk - 1, chunk as int);
    vstd::arithmetic::div_mod::lemma_div_by_self(chunk as int);
}

/// Member `k` of a range of steps is `v`.
pub open spec fn member(s: StepRange, k: int, v: int) -> bool {
    s.first + k * s.step == v
}

/// The range stops right behind member `n - 1`.
pub open spec fn counts(s: StepRange, n: int) -> bool {
    s.stop == s.first + n * s.step
}

/// Within a chunk a query at `q` has decayed a key at `k` by their distance. The incoming state has
/// decayed by one step for every token up to and with the query, and at the end of the chunk a key
/// has decayed by the number of tokens behind it. Each range has one member for every token.
pub proof fn steps_count_the_tokens_between(
    c: ChunkPlan,
    positions: StepRange,
    carry: StepRange,
    tail: StepRange,
    k: int,
)
    requires
        1 <= c.len < i32::MAX,
        0 <= k < c.len,
        call_ensures(ChunkPlan::positions, (&c,), positions),
        call_ensures(ChunkPlan::carry_steps, (&c,), carry),
        call_ensures(ChunkPlan::tail_steps, (&c,), tail),
    ensures
        member(positions, k, k) && counts(positions, c.len as int),
        member(carry, k, k + 1) && counts(carry, c.len as int),
        member(tail, k, c.len - 1 - k) && counts(tail, c.len as int),
{
    assert(k * 1 == k && c.len * 1 == c.len);
    assert(k * -1 == -k) by (nonlinear_arith);
    assert(c.len * -1 == -c.len) by (nonlinear_arith);
}

/// Token by token, every token is a step of its own, in order.
pub proof fn tokens_step_one_by_one(len: i32, r: Vec<(i32, i32)>, t: int)
    requires
        0 <= t < len,
        call_ensures(bailing_moe_linear::gla_sequential, (len,), r),
    ensures
        r@.len() == len,
        r@[t].0 == t,
        r@[t].1 == t + 1,
{
}

/// The leading series of slopes is over a power of two, the largest one within the heads; what it
/// leaves over comes out of the next series.
pub proof fn slopes_lead_with_a_power_of_two(n: usize, r: (usize, usize))
    requires
        call_ensures(bailing_moe_linear::slope_counts, (n,), r),
        n > 0,
    ensures
        r.0 + r.1 == n,
        r.0 <= n < 2 * r.0,
        exists|k: nat| r.0 == pow2(k),
{
}

/// Every head has a slope. A head within the leading series has that series' own member, in order; the
/// others have every second member of the doubled series.
pub proof fn every_head_has_its_slope(n: usize, r: Vec<Slope>, p: (usize, usize), i: int)
    requires
        0 <= i < n <= usize::MAX / 2,
        call_ensures(bailing_moe_linear::alibi_slopes, (n,), r),
        call_ensures(bailing_moe_linear::slope_counts, (n,), p),
    ensures
        r@.len() == n,
        i < p.0 ==> r@[i].series == p.0 && r@[i].index == i,
        i >= p.0 ==> r@[i].series == 2 * p.0 && r@[i].index == 2 * (i - p.0),
{
    lemma_power_leads(n as nat, p.0 as nat);
}

/// No two heads have the same slope: member `m` of the series over `s` heads stands for the exponent
/// `8 * (m + 1) / s`, and these differ.
pub proof fn slopes_are_distinct(n: usize, r: Vec<Slope>, p: (usize, usize), i: int, j: int)
    requires
        0 <= i < j < n <= usize::MAX / 2,
        call_ensures(bailing_moe_linear::alibi_slopes, (n,), r),
        call_ensures(bailing_moe_linear::slope_counts, (n,), p),
    ensures
        (r@[i].index + 1) * r@[j].series != (r@[j].index + 1) * r@[i].series,
{
    lemma_power_leads(n as nat, p.0 as nat);
    let q = p.0 as int;
    if j < q {
        assert((i + 1) * q != (j + 1) * q) by (nonlinear_arith) requires i < j, q > 0;
    } else if i >= q {
        assert((2 * (i - q) + 1) * (2 * q) != (2 * (j - q) + 1) * (2 * q)) by (nonlinear_arith) requires i < j, q > 0;
    } else {
        assert((i + 1) * (2 * q) == (2 * (i + 1)) * q) by (nonlinear_arith);
        if (i + 1) * (2 * q) == (2 * (j - q) + 1) * q {
            assert(2 * (i + 1) == 2 * (j - q) + 1) by (nonlinear_arith)
                requires (2 * (i + 1)) * q == (2 * (j - q) + 1) * q, q > 0;
        }
    }
}

/// The power of two that leads is the only one between half of the heads and all of them.
proof fn lemma_power_leads(n: nat, p: nat)
    requires bailing_moe_linear::largest_power(n, p),
    ensures
        p == bailing_moe_linear::leading_power(n),
        p > 0,
    decreases n,
{
    lemma2_to64();
    let k = choose|k: nat| p == #[trigger] pow2(k);
    lemma_pow2_pos(k);
    if k > 0 {
        lemma_pow2_adds(1, (k - 1) as nat);
        if k > 1 {
            lemma_pow2_adds(1, (k - 2) as nat);
        }
    }
    if n >= 2 {
        assert(bailing_moe_linear::largest_power(n / 2, pow2((k - 1) as nat)));
        lemma_power_leads(n / 2, pow2((k - 1) as nat));
    }
}

/// A layer's decay is scaled by its depth below the second layer over the steps of the stack: the
/// first two layers share the first place, each further layer is one place deeper, and the last has
/// not reached the end.
pub proof fn decay_follows_the_depth(layer: usize, layers: usize, r: (usize, usize))
    requires
        layer < layers,
        call_ensures(bailing_moe_linear::decay_position, (layer, layers), r),
    ensures
        layer == 0 ==> r.0 == 0,
        layer > 0 ==> r.0 + 1 == layer,
        layers >= 2 ==> r.1 + 1 == layers,
        layers < 2 ==> r.1 == 1,
        r.0 < r.1,
{
}

/// The chunked prefill stays on unless it is switched off in so many words, in any letter case and with
/// white space around them.
pub proof fn chunked_prefill_is_on_by_default(value: &str, r: bool, none: bool)
    requires
        call_ensures(bailing_moe_linear::chunked_prefill_enabled_from, (Some(value),), r),
        call_ensures(bailing_moe_linear::chunked_prefill_enabled_from, (None,), none),
    ensures
        none,
        !r <==> ({
            let t = lower(trim(value@));
            t == "0"@ || t == "false"@ || t == "off"@ || t == "no"@
        }),
{
}

/// A group norm takes a weight of one axis that its groups share out evenly, and no other.
pub proof fn group_norm_shares_its_width(weight: Vec<i32>, groups: i32, eps: Single, r: Result<GroupRMSNorm, String>)
    requires
        call_ensures(GroupRMSNorm::new, (&weight, groups, &eps), r),
    ensures
        r is Ok <==> weight@.len() == 1 && groups > 0 && weight@[0] as int % groups as int == 0,
        r matches Ok(n) ==> n.groups == groups && n.width == weight@[0] && n.groups * n.per_group == n.width
            && n.eps.bits == eps.bits,
{
    if let Ok(n) = r {
        vstd::arithmetic::div_mod::lemma_fundamental_div_mod(weight@[0] as int, groups as int);
    }
}

/// Grouping splits the last axis of an input in two and keeps every axis before it; it keeps every
/// element where the groups share the axis out evenly.
pub proof fn grouping_keeps_every_element(norm: GroupRMSNorm, shape: Vec<i32>, r: Vec<i32>, i: int)
    requires
        call_ensures(GroupRMSNorm::forward, (&norm, &shape), r),
        shape@.len() >= 1,
        shape@[shape@.len() - 1] >= 0,
        norm.groups > 0,
        0 <= i < shape@.len() - 1,
    ensures
        r@.len() == shape@.len() + 1,
        r@[i] == shape@[i],
        r@[shape@.len() - 1] == norm.groups,
        r@[shape@.len() as int] == shape@[shape@.len() - 1] as int / norm.groups as int,
        shape@[shape@.len() - 1] as int % norm.groups as int == 0 ==> r@[shape@.len() - 1] * r@[shape@.len() as int]
            == shape@[shape@.len() - 1],
{
    let last = shape@[shape@.len() - 1] as int;
    vstd::arithmetic::div_mod::lemma_fundamental_div_mod(last, norm.groups as int);
    vstd::arithmetic::div_mod::lemma_div_pos_is_pos(last, norm.groups as int);
    vstd::arithmetic::div_mod::lemma_div_is_ordered_by_denominator(last, 1, norm.groups as int);
}

/// The fused projection is cut in queries, keys and values that meet and do not overlap, one block of
/// channels for each head.
pub open spec fn cuts(c: QkvCut, p: HeadPlan) -> bool {
    &&& c.q_end == p.q_heads * p.head_dim
    &&& c.k_end - c.q_end == p.kv_heads * p.head_dim
    &&& c.v_end - c.k_end == p.kv_heads * p.head_dim
}

/// Every layer of Bailing MoE has the heads of its config, over equal shares of the hidden width, as
/// many key heads as declared, or as query heads where none are. It rotates the declared number of
/// channels in halves, and reads every key.
#[verifier::spinoff_prover]
#[verifier::rlimit(60)]
pub proof fn bailing_layers_follow_the_config(
    args: bailing_moe::ModelArgs,
    weights: WeightMap,
    answers: PackingAnswers,
    refusal: Option<&str>,
    model: BailingMoeModel,
    steps: Steps,
    i: int,
    x: Vec<i32>,
    offset: i32,
    p: (QkvCut, HeadPlan),
    length: i32,
    has_mask: bool,
    a: AttendPlan,
)
    requires
        call_ensures(
            BailingMoeModel::from_weights,
            (&weights, &args, &answers, refusal),
            Build::Ready(model, steps),
        ),
        0 <= i < model.layers@.len(),
        call_ensures(bailing_moe::Attention::forward, (&model.layers@[i].attention, &x, offset), p),
        call_ensures(bailing_moe::Attention::attend, (&model.layers@[i].attention, length, has_mask), a),
    ensures
        ({
            let heads = args.num_attention_heads as int;
            let kv = match args.num_key_value_heads {
                Some(n) => n as int,
                None => heads,
            };
            let dim = args.hidden_size as int / heads;
            &&& splits(p.1, x@, heads, kv, dim)
            &&& heads * dim == args.hidden_size
            &&& cuts(p.0, p.1)
            &&& turns(p.1, match args.rotary_dim {
                Some(d) => d as int,
                None => scaled_width(args.partial_rotary_factor.bits, dim as nat),
            }, false, offset)
            &&& causal(a, length, has_mask, 0)
            &&& model.layers@[i].attention.qk_norm == args.use_qk_norm
            &&& model.layers@[i].attention.rope_base.bits == args.rope_theta.bits
            &&& model.tied == args.tie_word_embeddings
        }),
{
    bailing_moe::validated_config_is_usable(args, refusal);
    bailing_moe::usable_widths_are_small(args);
    assert(model.layers@[i].describes(args, i));
    let h = args.num_attention_heads as int;
    let n = args.hidden_size as int;
    vstd::arithmetic::div_mod::lemma_div_is_ordered_by_denominator(n, 1, h);
    let k = args.spec_kv_heads() as int;
    let d = args.spec_head_dim() as int;
    assert(k * d >= 0) by (nonlinear_arith) requires k >= 0, d >= 0;
}

/// Layer `i` of a stack of `layers` in groups of `group` has full attention: it ends a group, or lies
/// behind the last complete one.
pub open spec fn full(i: int, group: int, layers: int) -> bool {
    (i + 1) % group == 0 || i >= (layers / group) * group
}

/// A full-attention layer of the linear family has the heads of its config, of the declared width or an
/// equal share of the hidden width, and reads every key.
#[verifier::spinoff_prover]
#[verifier::rlimit(60)]
pub proof fn ling_full_layers_follow_the_config(
    args: ModelArgs,
    weights: WeightMap,
    answers: PackingAnswers,
    refusal: Option<&str>,
    chunked_prefill: bool,
    model: BailingMoeLinearModel,
    steps: Steps,
    i: int,
    block: bailing_moe_linear::Attention,
    x: Vec<i32>,
    offset: i32,
    p: (QkvCut, HeadPlan),
    length: i32,
    has_mask: bool,
    a: AttendPlan,
)
    requires
        call_ensures(
            BailingMoeLinearModel::from_weights,
            (&weights, &args, &answers, refusal, chunked_prefill),
            Build::Ready(model, steps),
        ),
        0 <= i < model.layers@.len(),
        model.layers@[i].attention == AttentionKind::Full(block),
        call_ensures(bailing_moe_linear::Attention::forward, (&block, &x, offset), p),
        call_ensures(bailing_moe_linear::Attention::attend, (&block, length, has_mask), a),
    ensures
        full(i, args.layer_group_size as int, args.num_hidden_layers as int),
        ({
            let heads = args.num_attention_heads as int;
            let kv = match args.num_key_value_heads {
                Some(n) => n as int,
                None => heads,
            };
            let dim = match args.head_dim {
                Some(d) => d as int,
                None => args.hidden_size as int / heads,
            };
            &&& splits(p.1, x@, heads, kv, dim)
            &&& cuts(p.0, p.1)
            &&& turns(p.1, scaled_width(args.partial_rotary_factor.bits, dim as nat), args.rope_traditional, offset)
            &&& causal(a, length, has_mask, 0)
            &&& block.qk_norm == args.use_qk_norm
            &&& block.rope_base.bits == args.rope_theta.bits
            &&& model.tied == args.tie_word_embeddings
        }),
{
    bailing_moe_linear::validated_config_is_usable(args, refusal);
    bailing_moe_linear::usable_widths_are_small(args);
    assert(model.layers@[i].describes(args, i, chunked_prefill));
    bailing_moe_linear::valid_attention_fits(args, model.layers@[i], i, chunked_prefill);
    let k = args.spec_kv_heads() as int;
    let d = args.spec_head_dim() as int;
    let h = args.num_attention_heads as int;
    assert(k * d >= 0 && h * d >= 0) by (nonlinear_arith) requires k >= 0, d >= 0, h >= 0;
}

/// A linear-attention layer has as many key heads as query heads, over equal shares of the hidden width
/// whatever width the config declares, so its projection is cut in even thirds. A prompt runs in
/// chunks of 64 tokens unless that is switched off; a single token is a step by itself.
#[verifier::spinoff_prover]
#[verifier::rlimit(60)]
pub proof fn ling_linear_layers_follow_the_config(
    args: ModelArgs,
    weights: WeightMap,
    answers: PackingAnswers,
    refusal: Option<&str>,
    chunked_prefill: bool,
    model: BailingMoeLinearModel,
    steps: Steps,
    i: int,
    block: LinearAttention,
    x: Vec<i32>,
    offset: i32,
    p: (QkvCut, HeadPlan, Recurrence),
)
    requires
        call_ensures(
            BailingMoeLinearModel::from_weights,
            (&weights, &args, &answers, refusal, chunked_prefill),
            Build::Ready(model, steps),
        ),
        0 <= i < model.layers@.len(),
        model.layers@[i].attention == AttentionKind::Linear(block),
        call_ensures(LinearAttention::forward, (&block, &x, offset), p),
    ensures
        !full(i, args.layer_group_size as int, args.num_hidden_layers as int),
        ({
            let heads = args.num_attention_heads as int;
            let dim = args.hidden_size as int / heads;
            &&& splits(p.1, x@, heads, heads, dim)
            &&& cuts(p.0, p.1)
            &&& p.0.v_end == 3 * args.hidden_size
            &&& turns(p.1, scaled_width(args.partial_rotary_factor.bits, dim as nat), args.rope_traditional, offset)
        }),
        p.2 == (if x@[1] >= 2 && chunked_prefill { Recurrence::Chunked { chunk: 64 } } else { Recurrence::Sequential }),
        block.qk_norm == args.use_qk_norm,
        block.rope_base.bits == args.rope_theta.bits,
        block.g_norm.groups == args.group_norm_size,
        block.g_norm.groups * block.g_norm.per_group == args.hidden_size,
        block.g_norm.eps.bits == args.rms_norm_eps.bits,
        i >= 1 ==> block.decay_position.0 == i - 1,
        i == 0 ==> block.decay_position.0 == 0,
        args.num_hidden_layers >= 2 ==> block.decay_position.1 == args.num_hidden_layers - 1,
{
    bailing_moe_linear::validated_config_is_usable(args, refusal);
    bailing_moe_linear::usable_widths_are_small(args);
    assert(model.layers@[i].describes(args, i, chunked_prefill));
    bailing_moe_linear::valid_attention_fits(args, model.layers@[i], i, chunked_prefill);
    let d = args.spec_linear_head_dim() as int;
    let h = args.num_attention_heads as int;
    assert(h * d >= 0) by (nonlinear_arith) requires d >= 0, h >= 0;
    let w = args.spec_linear_width() as int;
    if args.group_norm_size > w {
        vstd::arithmetic::div_mod::lemma_small_mod(w as nat, args.group_norm_size as nat);
    }
    vstd::arithmetic::div_mod::lemma_fundamental_div_mod(w, args.group_norm_size as int);
}

/// Every layer of the linear family is given an empty cache of its own kind, so that no layer of a
/// model is ever paired with a cache of the other.
pub proof fn ling_caches_pair_with_their_layers<T>(
    model: BailingMoeLinearModel,
    caches: Vec<BailingLinearCache<T>>,
    i: int,
    pairing: Pairing,
    offset: i32,
)
    requires
        call_ensures(BailingMoeLinearModel::make_internal_caches::<T>, (&model,), caches),
        0 <= i < model.layers@.len(),
        call_ensures(DecoderLayer::forward::<T>, (&model.layers@[i], &caches@[i]), pairing),
        call_ensures(BailingLinearCache::<T>::offset, (&caches@[i],), offset),
    ensures
        caches@.len() == model.layers@.len(),
        model.layers@[i].attention is Full ==> (caches@[i] matches BailingLinearCache::Attention(kv) && kv.keys is None
            && kv.values is None && pairing == Pairing::Full),
        model.layers@[i].attention is Linear ==> (caches@[i] matches BailingLinearCache::Linear(s) && s.state is None
            && pairing == Pairing::Linear),
        offset == 0,
{
}

/// A layer and a cache of different kinds never work together.
pub proof fn ling_kinds_do_not_mix<T>(layer: DecoderLayer, cache: BailingLinearCache<T>, pairing: Pairing)
    requires
        call_ensures(DecoderLayer::forward::<T>, (&layer, &cache), pairing),
    ensures
        pairing == Pairing::Mismatch <==> (layer.attention is Full <==> cache is Linear),
        pairing == Pairing::Full ==> layer.attention is Full && cache is Attention,
        pairing == Pairing::Linear ==> layer.attention is Linear && cache is Linear,
{
}

/// A pass of a model begins where the cache of its first full-attention layer stands, and so does the
/// mask of a prompt; a single token has no mask.
pub proof fn ling_position_is_the_first_full_layers<T>(
    args: ModelArgs,
    weights: WeightMap,
    answers: PackingAnswers,
    refusal: Option<&str>,
    chunked_prefill: bool,
    model: BailingMoeLinearModel,
    steps: Steps,
    caches: Vec<BailingLinearCache<T>>,
    seq_len: i32,
    i: int,
    position: i32,
    mask: Option<i32>,
    offset: i32,
)
    requires
        call_ensures(
            BailingMoeLinearModel::from_weights,
            (&weights, &args, &answers, refusal, chunked_prefill),
            Build::Ready(model, steps),
        ),
        caches@.len() == model.layers@.len(),
        0 <= i < model.layers@.len(),
        model.layers@[i].attention is Full,
        forall|j: int| 0 <= j < i ==> #[trigger] model.layers@[j].attention is Linear,
        call_ensures(BailingLinearCache::<T>::offset, (&caches@[i],), offset),
        call_ensures(BailingMoeLinearModel::forward::<T>, (&model, &caches), position),
        call_ensures(BailingMoeLinearModel::prefill_mask::<T>, (&model, seq_len, &caches), mask),
    ensures
        position == offset,
        seq_len >= 2 ==> mask == Some(offset),
        seq_len <= 1 ==> mask is None,
{
    let g = model.global_layer_index->0 as int;
    assert(model.layers@[i].describes(args, i, chunked_prefill));
    assert(model.layers@[g].describes(args, g, chunked_prefill));
    if g < i {
        assert(model.layers@[g].attention is Linear);
    }
}

/// Some layer of every model of the family has full attention.
pub proof fn ling_has_a_full_layer(
    args: ModelArgs,
    weights: WeightMap,
    answers: PackingAnswers,
    refusal: Option<&str>,
    chunked_prefill: bool,
    model: BailingMoeLinearModel,
    steps: Steps,
)
    requires
        call_ensures(
            BailingMoeLinearModel::from_weights,
            (&weights, &args, &answers, refusal, chunked_prefill),
            Build::Ready(model, steps),
        ),
    ensures
        model.layers@.len() == args.num_hidden_layers,
        exists|i: int| 0 <= i < model.layers@.len() && #[trigger] model.layers@[i].attention is Full,
{
    let g = model.global_layer_index->0 as int;
    assert(model.layers@[g].describes(args, g, chunked_prefill));
    assert(model.layers@[g].attention is Full);
}

/// What a snapshot took of the caches of a model comes back when it is restored: every layer has its
/// tensors again, at the position that the snapshot was taken at.
pub proof fn ling_snapshots_are_restored<T: Copy>(
    model: BailingMoeLinearModel,
    caches: Vec<BailingLinearCache<T>>,
    token_len: usize,
    snapshot: Snapshot<T>,
    r: Result<Vec<BailingLinearCache<T>>, String>,
    i: int,
)
    requires
        token_len <= i32::MAX,
        caches@.len() == model.layers@.len(),
        0 <= i < caches@.len(),
        caches@[i] is Attention <==> model.layers@[i].attention is Full,
        call_ensures(
            BailingMoeLinearModel::snapshot_sequence_state::<T>,
            (&model, &caches, token_len),
            snapshot,
        ),
        call_ensures(BailingMoeLinearModel::restore_sequence_state::<T>, (&model, &snapshot), r),
    ensures
        r matches Ok(back) && back@.len() == caches@.len() && match caches@[i] {
            BailingLinearCache::Attention(kv) => back@[i] == BailingLinearCache::Attention(
                KvCache { keys: kv.keys, values: kv.values, offset: token_len as i32 },
            ),
            BailingLinearCache::Linear(s) => back@[i] == BailingLinearCache::Linear(
                LinearAttentionCache { state: s.state, offset: token_len as i32 },
            ),
        },
{
    bailing_moe_linear::restoring_undoes_snapshotting(caches@, token_len, i);
}

/// A snapshot of another family is not restored.
pub proof fn ling_refuses_foreign_snapshots<T: Copy>(
    model: BailingMoeLinearModel,
    snapshot: Snapshot<T>,
    family: &str,
    token_len: usize,
    r: Result<Vec<BailingLinearCache<T>>, String>,
)
    requires
        call_ensures(Snapshot::<T>::new, (family, token_len), snapshot),
        call_ensures(BailingMoeLinearModel::restore_sequence_state::<T>, (&model, &snapshot), r),
    ensures
        r is Ok <==> family@ == "bailing_moe_linear"@,
{
}

/// A pass starts a model's own sequence afresh exactly where it is a prompt outside any sequence.
pub proof fn prompts_outside_a_sequence_start_afresh(
    a: afmoe::AfmoeModel,
    l: BailingMoeLinearModel,
    has_sequence_id: bool,
    seq_len: i32,
    r: bool,
    s: bool,
)
    requires
        call_ensures(afmoe::AfmoeModel::forward_for_sequence, (&a, has_sequence_id, seq_len), r),
        call_ensures(BailingMoeLinearModel::forward_for_sequence, (&l, has_sequence_id, seq_len), s),
    ensures
        r <==> !has_sequence_id && seq_len >= 2,
        s <==> !has_sequence_id && seq_len >= 2,
{
}

/// Nothing is carried into the first pass of any layer.
pub proof fn convolutions_begin_with_nothing<T>(n: usize, r: ConvStates<T>, i: int)
    requires
        call_ensures(ConvStates::<T>::new, (n,), r),
        0 <= i < n,
    ensures
        r.states@.len() == n,
        r.states@[i] is None,
{
}

/// Where the caches do not reach the first full-attention layer, a pass begins where the first cache
/// stands, or at the beginning where there is none, and a prompt has a causal mask over nothing before
/// it.
pub proof fn ling_position_without_a_full_layers_cache<T>(
    model: BailingMoeLinearModel,
    caches: Vec<BailingLinearCache<T>>,
    seq_len: i32,
    position: i32,
    mask: Option<i32>,
    first: i32,
)
    requires
        model.global_layer_index matches Some(i) ==> i >= caches@.len(),
        call_ensures(BailingMoeLinearModel::forward::<T>, (&model, &caches), position),
        call_ensures(BailingMoeLinearModel::prefill_mask::<T>, (&model, seq_len, &caches), mask),
        caches@.len() > 0 ==> call_ensures(BailingLinearCache::<T>::offset, (&caches@[0],), first),
    ensures
        caches@.len() > 0 ==> position == first,
        caches@.len() == 0 ==> position == 0,
        seq_len >= 2 ==> mask == Some(0i32),
        seq_len <= 1 ==> mask is None,
{
}

/// A cache stands where its own counter says.
pub proof fn caches_tell_their_position<T>(cache: BailingLinearCache<T>, r: i32)
    requires
        call_ensures(BailingLinearCache::<T>::offset, (&cache,), r),
    ensures
        cache matches BailingLinearCache::Attention(kv) ==> r == kv.offset,
        cache matches BailingLinearCache::Linear(l) ==> r == l.offset,
{
}

/// Every linear block runs a prompt in chunks of 64 tokens unless that is switched off, and anything else
/// token by token.
pub proof fn prompts_run_in_chunks(block: LinearAttention, x: Vec<i32>, offset: i32, r: (QkvCut, HeadPlan, Recurrence))
    requires
        call_ensures(LinearAttention::forward, (&block, &x, offset), r),
    ensures
        r.2 is Sequential <==> x@[1] <= 1 || !block.chunked_prefill,
        r.2 matches Recurrence::Chunked { chunk } ==> chunk == 64,
{
}

/// Every block over a fused projection cuts it without gaps, splits its input into its own heads, and
/// rotates as many channels as it is told from the given position on.
pub proof fn fused_projections_are_cut_without_gaps(
    b: bailing_moe::Attention,
    f: bailing_moe_linear::Attention,
    l: LinearAttention,
    x: Vec<i32>,
    offset: i32,
    rb: (QkvCut, HeadPlan),
    rf: (QkvCut, HeadPlan),
    rl: (QkvCut, HeadPlan, Recurrence),
)
    requires
        b.num_heads >= 0 && b.num_kv_heads >= 0 && b.head_dim >= 0,
        f.num_heads >= 0 && f.num_kv_heads >= 0 && f.head_dim >= 0,
        l.num_heads >= 0 && l.head_dim >= 0,
        b.num_heads * b.head_dim + 2 * (b.num_kv_heads * b.head_dim) <= i32::MAX,
        f.num_heads * f.head_dim + 2 * (f.num_kv_heads * f.head_dim) <= i32::MAX,
        l.num_heads * l.head_dim + 2 * (l.num_heads * l.head_dim) <= i32::MAX,
        call_ensures(bailing_moe::Attention::forward, (&b, &x, offset), rb),
        call_ensures(bailing_moe_linear::Attention::forward, (&f, &x, offset), rf),
        call_ensures(LinearAttention::forward, (&l, &x, offset), rl),
    ensures
        cuts(rb.0, rb.1) && splits(rb.1, x@, b.num_heads as int, b.num_kv_heads as int, b.head_dim as int),
        cuts(rf.0, rf.1) && splits(rf.1, x@, f.num_heads as int, f.num_kv_heads as int, f.head_dim as int),
        cuts(rl.0, rl.1) && splits(rl.1, x@, l.num_heads as int, l.num_heads as int, l.head_dim as int),
        turns(rb.1, b.rope_dims as int, false, offset),
        turns(rf.1, f.rope_dims as int, f.rope_traditional, offset),
        turns(rl.1, l.rope_dims as int, l.rope_traditional, offset),
{
    assert(b.num_heads * b.head_dim >= 0 && b.num_kv_heads * b.head_dim >= 0) by (nonlinear_arith)
        requires b.num_heads >= 0, b.num_kv_heads >= 0, b.head_dim >= 0;
    assert(f.num_heads * f.head_dim >= 0 && f.num_kv_heads * f.head_dim >= 0) by (nonlinear_arith)
        requires f.num_heads >= 0, f.num_kv_heads >= 0, f.head_dim >= 0;
    assert(l.num_heads * l.head_dim >= 0) by (nonlinear_arith)
        requires l.num_heads >= 0, l.head_dim >= 0;
}

} // verus!
