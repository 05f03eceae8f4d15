//! What every attention block does to every pass: how it splits its input into heads, which of its
//! layers rotate and slide, which keys it reads, and under which mask.
use vstd::prelude::*;
use crate::afmoe;
use crate::apertus;
use crate::baichuan;
use crate::cohere;
use crate::cohere2;
use crate::cohere2_moe;
use crate::config_laws::{is_kind, lemma_kind};
use crate::plan::{AttendPlan, HeadPlan, Kernel};
use crate::steps::{Build, Steps};
use crate::weights::{PackingAnswers, WeightMap};

verus! {

/// An input `[batch, length, ..]` is split into `heads` query heads and `kv_heads` key heads of `dim`
/// channels, and the query heads are merged again with nothing lost.
pub open spec fn splits(p: HeadPlan, x: Seq<i32>, heads: int, kv_heads: int, dim: int) -> bool {
    &&& p.batch == x[0]
    &&& p.length == x[1]
    &&& p.q_heads == heads
    &&& p.kv_heads == kv_heads
    &&& p.head_dim == dim
    &&& p.width == heads * dim
}

/// Queries and keys are rotated over `dims` channels, as if the pass began at position `offset`.
pub open spec fn turns(p: HeadPlan, dims: int, traditional: bool, offset: i32) -> bool {
    p.rope matches Some(rope) && rope.dims == dims && rope.traditional == traditional && rope.offset == offset
}

/// Key `k` of `k_len` cached ones is read.
pub open spec fn reads(p: AttendPlan, k_len: int, k: int) -> bool {
    match p.keys {
        None => 0 <= k < k_len,
        Some((first, stop)) => first <= k < stop,
    }
}

/// Every cached key is read. A prompt that comes without a mask is masked by the kernel, so no token
/// of it sees a later one; a mask that was given is the one that counts, and a single token, which
/// sees every key, needs none.
pub open spec fn causal(p: AttendPlan, length: i32, has_mask: bool, window: int) -> bool {
    &&& p.keys is None
    &&& match p.kernel {
        Kernel::Causal { window: w } => length >= 2 && !has_mask && w == window,
        Kernel::Masked { window: w } => (has_mask || length <= 1) && w == window,
    }
}

/// On a Cohere2 layer without a window every pass reads every key. On one with a window a prompt
/// reads the newest keys, as many as the window holds and no others; a single token leaves the
/// window to its kernel.
pub proof fn cohere2_reads_the_newest_keys(a: cohere2::Cohere2Attention, length: i32, k_len: i32, r: AttendPlan, k: int)
    requires
        k_len >= 0,
        0 <= k < k_len,
        call_ensures(cohere2::Cohere2Attention::attend, (&a, length, k_len), r),
    ensures
        a.window_size <= 0 ==> r.keys is None,
        length <= 1 ==> r.keys is None,
        reads(r, k_len as int, k) <==> (a.window_size <= 0 || length <= 1 || k_len - k <= a.window_size),
        r.keys matches Some((first, stop)) ==> stop == k_len && stop - first == a.window_size && first > 0,
        r.kernel == (if length >= 2 {
            Kernel::Masked { window: a.window_size }
        } else {
            Kernel::Causal { window: a.window_size }
        }),
{
}

/// A longer cache moves the keys that a Cohere2 prompt reads along, and reads no fewer of them.
pub proof fn cohere2_window_moves_with_the_cache(
    a: cohere2::Cohere2Attention,
    length: i32,
    k_len: i32,
    more: i32,
    r: AttendPlan,
    s: AttendPlan,
)
    requires
        0 <= k_len <= more,
        call_ensures(cohere2::Cohere2Attention::attend, (&a, length, k_len), r),
        call_ensures(cohere2::Cohere2Attention::attend, (&a, length, more), s),
    ensures
        r.kernel == s.kernel,
        a.window_size <= 0 ==> r.keys == s.keys,
        r.keys matches Some((first, _)) ==> (s.keys matches Some((later, _)) && later - first == more - k_len),
{
}

/// On a windowed layer of Cohere2 MoE a prompt reads exactly as many of the newest keys as its mask
/// has columns; every other pass reads every key.
pub proof fn cohere2_moe_reads_what_the_mask_covers(
    a: cohere2_moe::Cohere2MoeAttention,
    length: i32,
    k_len: i32,
    mask: Option<&Vec<i32>>,
    r: AttendPlan,
    k: int,
)
    requires
        0 <= k < k_len,
        call_ensures(cohere2_moe::Cohere2MoeAttention::attend, (&a, length, k_len, mask), r),
    ensures
        a.window_size <= 0 || length <= 1 || mask is None ==> r.keys is None,
        mask matches Some(m) ==> m@.len() == 0 ==> r.keys is None,
        mask matches Some(m) ==> m@.len() > 0 && m@[m@.len() - 1] >= 0 && a.window_size > 0 && length >= 2 ==> (reads(
            r,
            k_len as int,
            k,
        ) <==> k_len - k <= m@[m@.len() - 1]),
        r.keys matches Some((first, stop)) ==> stop == k_len,
        r.kernel == (if length >= 2 {
            Kernel::Masked { window: a.window_size }
        } else {
            Kernel::Causal { window: a.window_size }
        }),
{
}

/// Every layer of Cohere2 has the heads of its config. All layers of a group but the last slide: they
/// rotate from the given position on and keep to the window. The last neither rotates nor keeps to
/// any window.
pub proof fn cohere2_layers_follow_the_config(
    args: cohere2::Cohere2Config,
    r: (cohere2::Cohere2Model, Steps),
    i: int,
    x: Vec<i32>,
    offset: i32,
    p: HeadPlan,
    length: i32,
    k_len: i32,
    a: AttendPlan,
)
    requires
        call_ensures(cohere2::Cohere2Model::from_weights, (&args,), r),
        0 <= i < r.0.layers@.len(),
        call_ensures(cohere2::Cohere2Attention::forward, (&r.0.layers@[i].self_attn, &x, offset), p),
        call_ensures(cohere2::Cohere2Attention::attend, (&r.0.layers@[i].self_attn, length, k_len), a),
        args.num_attention_heads <= i32::MAX,
        args.num_key_value_heads <= i32::MAX,
        args.head_dim <= i32::MAX,
        args.sliding_window <= i32::MAX,
        args.num_attention_heads * args.head_dim <= i32::MAX,
    ensures
        r.0.layers@.len() == args.num_hidden_layers,
        splits(p, x@, args.num_attention_heads as int, args.num_key_value_heads as int, args.head_dim as int),
        ({
            let group = match args.sliding_window_pattern {
                Some(n) => n,
                None => match args.layer_switch {
                    Some(n) => n,
                    None => 4,
                },
            };
            let sliding = group == 0 || (i + 1) % group as int != 0;
            &&& sliding ==> turns(p, args.head_dim as int, true, offset)
            &&& !sliding ==> p.rope is None
            &&& !sliding ==> a.keys is None
            &&& r.0.layers@[i].self_attn.window_size == (if sliding { args.sliding_window as int } else { 0 })
            &&& r.0.layers@[i].self_attn.rope_base.bits == args.rope_theta.bits
            &&& forall|k: int|
                0 <= k < k_len ==> (#[trigger] reads(a, k_len as int, k) <==> !sliding || length <= 1 || args.sliding_window
                    == 0 || k_len - k <= args.sliding_window)
        }),
{
}

/// A single token of Cohere2 is passed on without masks. A prompt gets two, each sized by the cache of
/// a layer that uses it; the windowed one is for the sliding layers.
pub proof fn cohere2_masks_follow_the_layers(
    args: cohere2::Cohere2Config,
    r: (cohere2::Cohere2Model, Steps),
    seq_len: usize,
    offsets: Vec<i32>,
    masks: Option<cohere2::MaskPlan>,
    i: usize,
    takes: bool,
)
    requires
        args.sliding_window <= i32::MAX,
        call_ensures(cohere2::Cohere2Model::from_weights, (&args,), r),
        call_ensures(cohere2::Cohere2Model::forward_impl, (&r.0, seq_len, &offsets), masks),
        i < r.0.layers@.len(),
        call_ensures(cohere2::Cohere2Model::takes_sliding_mask, (&r.0, i), takes),
        match args.sliding_window_pattern {
            Some(n) => n > 0,
            None => match args.layer_switch {
                Some(n) => n > 0,
                None => true,
            },
        },
    ensures
        ({
            let group = match args.sliding_window_pattern {
                Some(n) => n,
                None => match args.layer_switch {
                    Some(n) => n,
                    None => 4,
                },
            };
            &&& takes <==> (i as int + 1) % group as int != 0
            &&& masks is None <==> seq_len <= 1
            &&& masks matches Some(m) ==> {
                &&& m.full == offsets@[group - 1]
                &&& m.sliding.0 == offsets@[0]
                &&& m.sliding.1 == args.sliding_window
            }
        }),
{
    let group = args.pattern() as int;
    cohere2::first_global_layer_ends_the_first_group(args, r.0.ga_idx);
    assert(r.0.layers@[i as int].self_attn.follows(args, i as int));
    if group > 1 {
        assert(1int % group == 1) by {
            vstd::arithmetic::div_mod::lemma_small_mod(1, group as nat);
        }
        assert(args.slides(0));
        if r.0.swa_idx > 0 {
            assert(!args.slides(0));
        }
    } else {
        assert forall|j: int| 0 <= j < args.num_hidden_layers implies !args.slides(j) by {
            assert((j + 1) % 1 == 0);
        }
    }
}

/// A layer of Cohere2 MoE slides as its schedule says, and never in the dense prefix. It rotates where
/// it slides, and in a dense prefix whose own pattern is one; elsewhere it has no positions. Only a
/// sliding layer keeps to the window. It is dense exactly in the prefix.
pub proof fn cohere2_moe_layers_follow_the_config(
    args: cohere2_moe::Cohere2MoeConfig,
    weights: WeightMap,
    r: (cohere2_moe::Cohere2MoeModel, Steps),
    i: usize,
    x: Vec<i32>,
    offset: i32,
    p: HeadPlan,
    takes: bool,
)
    requires
        call_ensures(cohere2_moe::Cohere2MoeModel::from_weights, (&weights, &args), r),
        i < r.0.layers@.len(),
        call_ensures(cohere2_moe::Cohere2MoeAttention::forward, (&r.0.layers@[i as int].self_attn, &x, offset), p),
        call_ensures(cohere2_moe::Cohere2MoeModel::takes_sliding_mask, (&r.0, i), takes),
        args.num_attention_heads <= i32::MAX,
        args.num_key_value_heads <= i32::MAX,
        args.head_dim <= i32::MAX,
        args.sliding_window <= i32::MAX,
        args.num_attention_heads * args.head_dim <= i32::MAX,
    ensures
        r.0.layers@.len() == args.num_hidden_layers,
        splits(p, x@, args.num_attention_heads as int, args.num_key_value_heads as int, args.head_dim as int),
        ({
            let prefix = i < args.first_k_dense_replace;
            let scheduled = match args.layer_types {
                Some(types) => i < types@.len() && types@[i as int]@ == "sliding_attention"@,
                None => args.sliding_window_pattern == 0 || (i as int + 1) % args.sliding_window_pattern as int != 0,
            };
            let sliding = !prefix && scheduled;
            let layer = r.0.layers@[i as int];
            &&& takes == sliding
            &&& layer.self_attn.window_size == (if sliding { args.sliding_window as int } else { 0 })
            &&& p.rope is Some <==> sliding || (prefix && args.prefix_dense_sliding_window_pattern == 1)
            &&& p.rope is Some ==> turns(p, args.head_dim as int, true, offset)
            &&& layer.ffn is Dense <==> prefix
            &&& layer.self_attn.rope_base.bits == args.rope_theta.bits
            &&& args.rms_norm_eps matches Some(e) ==> layer.input_layernorm == cohere2_moe::Cohere2MoeNorm::Rms(e.bits)
            &&& args.rms_norm_eps is None ==> layer.input_layernorm == cohere2_moe::Cohere2MoeNorm::Layer(
                args.layer_norm_eps.bits,
            )
            &&& r.0.norm == layer.input_layernorm
        }),
{
    assert(r.0.layers@[i as int].describes(args, i as int));
}

/// A single token of Cohere2 MoE is passed on without masks. A prompt gets two, each sized by the
/// cache of the first layer that uses it.
pub proof fn cohere2_moe_masks_follow_the_layers(
    args: cohere2_moe::Cohere2MoeConfig,
    weights: WeightMap,
    r: (cohere2_moe::Cohere2MoeModel, Steps),
    seq_len: usize,
    live: Vec<i32>,
    masks: Option<cohere2_moe::MaskPlan>,
    i: int,
)
    requires
        args.sliding_window <= i32::MAX,
        call_ensures(cohere2_moe::Cohere2MoeModel::from_weights, (&weights, &args), r),
        call_ensures(cohere2_moe::Cohere2MoeModel::run_layers, (&r.0, seq_len, &live), masks),
        0 <= i < r.0.layers@.len(),
    ensures
        masks is None <==> seq_len <= 1,
        masks matches Some(m) ==> m.sliding.1 == args.sliding_window,
        masks matches Some(m) ==> (r.0.layers@[i].uses_sliding ==> exists|j: int|
            0 <= j <= i && #[trigger] r.0.layers@[j].uses_sliding && m.sliding.0 == live@[j] && forall|h: int|
                0 <= h < j ==> !#[trigger] r.0.layers@[h].uses_sliding),
        masks matches Some(m) ==> (!r.0.layers@[i].uses_sliding ==> exists|j: int|
            0 <= j <= i && !#[trigger] r.0.layers@[j].uses_sliding && m.full == live@[j] && forall|h: int|
                0 <= h < j ==> #[trigger] r.0.layers@[h].uses_sliding),
{
    assert(r.0.layers@[i].describes(args, i));
    assert forall|h: int| 0 <= h < r.0.layers@.len() implies #[trigger] r.0.layers@[h].uses_sliding == args.slides(h) by {
        assert(r.0.layers@[h].describes(args, h));
    }
    if r.0.layers@[i].uses_sliding {
        assert(args.slides(i) == true);
        assert(r.0.layers@[r.0.swa_idx as int].uses_sliding);
    } else {
        assert(args.slides(i) == false);
        assert(!r.0.layers@[r.0.ga_idx as int].uses_sliding);
    }
}

/// Every layer of Cohere has the heads of its config, over equal shares of the hidden width, rotates
/// all of their channels in adjacent pairs, and reads every key.
pub proof fn cohere_layers_follow_the_config(
    args: cohere::ModelArgs,
    r: (cohere::CohereModel, Steps),
    i: int,
    x: Vec<i32>,
    offset: i32,
    p: HeadPlan,
    length: i32,
    has_mask: bool,
    a: AttendPlan,
)
    requires
        args.num_attention_heads > 0,
        call_ensures(cohere::CohereModel::from_weights, (&args,), r),
        0 <= i < r.0.layers@.len(),
        call_ensures(cohere::Attention::forward, (&r.0.layers@[i].self_attn, &x, offset), p),
        call_ensures(cohere::Attention::attend, (&r.0.layers@[i].self_attn, length, has_mask), a),
        args.num_attention_heads <= i32::MAX,
        args.num_key_value_heads <= i32::MAX,
        args.hidden_size <= i32::MAX,
    ensures
        r.0.layers@.len() == args.num_hidden_layers,
        splits(
            p,
            x@,
            args.num_attention_heads as int,
            args.num_key_value_heads as int,
            args.hidden_size as int / args.num_attention_heads as int,
        ),
        turns(p, args.hidden_size as int / args.num_attention_heads as int, true, offset),
        causal(a, length, has_mask, 0),
        r.0.layers@[i].self_attn.rope_base.bits == args.rope_theta.bits,
        r.0.layers@[i].self_attn.qk_norm == args.use_qk_norm,
{
    lemma_shares_fit(args.hidden_size as int, args.num_attention_heads as int);
}

/// Equal shares of a whole take no more than the whole.
proof fn lemma_shares_fit(whole: int, shares: int)
    requires
        whole >= 0,
        shares > 0,
    ensures
        0 <= whole / shares <= whole,
        0 <= shares * (whole / shares) <= whole,
{
    vstd::arithmetic::div_mod::lemma_fundamental_div_mod(whole, shares);
    vstd::arithmetic::div_mod::lemma_mod_bound(whole, shares);
    vstd::arithmetic::div_mod::lemma_div_pos_is_pos(whole, shares);
    assert(whole / shares <= shares * (whole / shares)) by (nonlinear_arith)
        requires shares >= 1, whole / shares >= 0;
    assert(0 <= shares * (whole / shares)) by (nonlinear_arith)
        requires shares >= 1, whole / shares >= 0;
}

/// Every layer of Apertus has the heads of its config, of the declared width or an equal share of the
/// hidden width, rotates all of their channels in halves, and reads every key.
pub proof fn apertus_layers_follow_the_config(
    args: apertus::ModelArgs,
    r: (apertus::ApertusModel, Steps),
    i: int,
    x: Vec<i32>,
    offset: i32,
    p: HeadPlan,
    length: i32,
    has_mask: bool,
    a: AttendPlan,
)
    requires
        args.num_attention_heads > 0,
        call_ensures(apertus::ApertusModel::from_weights, (&args,), r),
        0 <= i < r.0.layers@.len(),
        call_ensures(apertus::Attention::forward, (&r.0.layers@[i].self_attn, &x, offset), p),
        call_ensures(apertus::Attention::attend, (&r.0.layers@[i].self_attn, length, has_mask), a),
        args.num_attention_heads <= i32::MAX,
        args.num_key_value_heads <= i32::MAX,
        args.hidden_size <= i32::MAX,
        args.head_dim matches Some(d) ==> d <= i32::MAX && args.num_attention_heads * d <= i32::MAX,
    ensures
        r.0.layers@.len() == args.num_hidden_layers,
        ({
            let dim = match args.head_dim {
                Some(d) => d as int,
                None => args.hidden_size as int / args.num_attention_heads as int,
            };
            &&& splits(p, x@, args.num_attention_heads as int, args.num_key_value_heads as int, dim)
            &&& turns(p, dim, false, offset)
        }),
        r.0.layers@[i].self_attn.qk_norm == args.qk_norm,
        r.0.layers@[i].self_attn.rope_base.bits == args.rope_theta.bits,
        r.0.layers@[i].self_attn.rope_freqs is Some <==> (args.rope_scaling matches Some(block) && is_kind(block, "llama3"@)),
        r.0.layers@[i].self_attn.rope_freqs matches Some(n) ==> n == p.head_dim as int / 2,
        causal(a, length, has_mask, 0),
{
    lemma_shares_fit(args.hidden_size as int, args.num_attention_heads as int);
    if let Some(block) = args.rope_scaling {
        lemma_kind(block, "llama3"@);
    }
}

/// A layer of Baichuan that is on the list slides: it has the window, and the head counts declared for
/// sliding layers where there are any. The hidden width is shared out among the layer's own heads.
pub proof fn baichuan_layers_follow_the_config(
    cfg: baichuan::BaichuanConfig,
    r: (baichuan::BaichuanModel, Steps),
    i: usize,
    x: Vec<i32>,
    offset: i32,
    p: baichuan::BaichuanPlan,
    length: i32,
    has_mask: bool,
    a: AttendPlan,
)
    requires
        call_ensures(baichuan::BaichuanModel::from_weights, (&cfg,), r),
        i < r.0.layers@.len(),
        call_ensures(baichuan::BaichuanAttention::forward, (&r.0.layers@[i as int].self_attn, &x, offset), p),
        call_ensures(baichuan::BaichuanAttention::attend, (&r.0.layers@[i as int].self_attn, length, has_mask), a),
        0 < cfg.num_attention_heads <= i32::MAX,
        cfg.num_key_value_heads <= i32::MAX,
        cfg.num_swa_attention_heads matches Some(n) ==> 0 < n <= i32::MAX,
        cfg.num_swa_key_value_heads matches Some(n) ==> n <= i32::MAX,
        cfg.sliding_window <= i32::MAX,
        cfg.hidden_size <= i32::MAX,
    ensures
        r.0.layers@.len() == cfg.num_hidden_layers,
        ({
            let sliding = exists|k: int| 0 <= k < cfg.sliding_window_layers@.len() && cfg.sliding_window_layers@[k] == i;
            let heads = match cfg.num_swa_attention_heads {
                Some(n) => if sliding { n as int } else { cfg.num_attention_heads as int },
                None => cfg.num_attention_heads as int,
            };
            let kv_heads = match cfg.num_swa_key_value_heads {
                Some(n) => if sliding { n as int } else { cfg.num_key_value_heads as int },
                None => cfg.num_key_value_heads as int,
            };
            &&& splits(p.heads, x@, heads, kv_heads, cfg.hidden_size as int / heads)
            &&& turns(p.heads, cfg.hidden_size as int / heads, false, offset)
            &&& causal(a, length, has_mask, if sliding { cfg.sliding_window as int } else { 0 })
            &&& r.0.layers@[i as int].self_attn.rope_base.bits == cfg.rope_theta.bits
            &&& cfg.conv_window <= i32::MAX ==> r.0.layers@[i as int].self_attn.conv_window == cfg.conv_window
        }),
{
    assert(r.0.layers@[i as int].self_attn.follows(cfg, i));
    let heads = cfg.heads(i) as int;
    lemma_shares_fit(cfg.hidden_size as int, heads);
    if cfg.slides(i) {
        let k = cfg.sliding_window_layers@.index_of(i);
        assert(cfg.sliding_window_layers@[k] == i);
    }
}

/// The fused projection of Baichuan is cut into the hidden width of queries and one block of every
/// key head each for keys and values, which meet and do not overlap. The token that is kept for the
/// next pass is the last one.
pub proof fn baichuan_projection_is_cut_without_gaps(a: baichuan::BaichuanAttention, x: Vec<i32>, offset: i32, p: baichuan::BaichuanPlan)
    requires
        x@.len() >= 3,
        x@[1] > i32::MIN,
        0 <= x@[2] + 2 * (a.n_kv_heads * a.head_dim) <= i32::MAX,
        0 <= x@[2],
        0 <= a.n_kv_heads * a.head_dim,
        call_ensures(baichuan::BaichuanAttention::forward, (&a, &x, offset), p),
    ensures
        p.cut.q_end == x@[2],
        p.cut.k_end - p.cut.q_end == p.heads.kv_heads * p.heads.head_dim,
        p.cut.v_end - p.cut.k_end == p.heads.kv_heads * p.heads.head_dim,
        p.keep.1 == p.heads.length,
        p.keep.1 - p.keep.0 == 1,
{
}

/// Token `t` of a Baichuan pass is convolved with the token right before it, for every `t`: one of the
/// pass itself, or for the first token the carried one, and zeros where none is carried. The token
/// itself and the one before it have a tap of their own.
pub proof fn baichuan_convolves_with_the_token_before(a: baichuan::BaichuanAttention, u: Vec<i32>, has_state: bool, r: baichuan::ConvPlan, t: int)
    requires
        call_ensures(baichuan::BaichuanAttention::custom_convolution, (&a, &u, has_state), r),
        0 < t < u@[2],
    ensures
        r.own matches Some(n) && t - 1 < n < u@[2],
        r.carried == has_state,
        r.batch == u@[0] && r.heads == u@[1] && r.width == u@[3] && r.taps == a.conv_window,
        r.previous_tap == 0 && r.own_tap == 1,
{
}

/// A Baichuan pass of one token takes nothing of its own as the token before.
pub proof fn baichuan_single_token_has_no_own_predecessor(
    a: baichuan::BaichuanAttention,
    u: Vec<i32>,
    has_state: bool,
    r: baichuan::ConvPlan,
)
    requires
        call_ensures(baichuan::BaichuanAttention::custom_convolution, (&a, &u, has_state), r),
        u@[2] <= 1,
    ensures
        r.own is None,
        r.carried == has_state,
        r.batch == u@[0] && r.heads == u@[1] && r.width == u@[3] && r.taps == a.conv_window,
        r.previous_tap == 0 && r.own_tap == 1,
{
}

/// A layer of AFMoE slides exactly where the schedule names sliding attention, and rotates exactly
/// where it slides. It is sparse exactly past the dense prefix. Every key of its cache is read.
pub proof fn afmoe_layers_follow_the_config(
    args: afmoe::ModelArgs,
    weights: WeightMap,
    answers: PackingAnswers,
    refusal: Option<&str>,
    model: afmoe::AfmoeModel,
    steps: Steps,
    i: int,
    x: Vec<i32>,
    offset: i32,
    p: HeadPlan,
    length: i32,
    has_mask: bool,
    a: AttendPlan,
)
    requires
        call_ensures(
            afmoe::AfmoeModel::from_weights,
            (&weights, &args, &answers, refusal),
            Build::Ready(model, steps),
        ),
        0 <= i < model.layers@.len(),
        call_ensures(afmoe::Attention::forward, (&model.layers@[i].self_attn, &x, offset), p),
        call_ensures(afmoe::Attention::attend, (&model.layers@[i].self_attn, length, has_mask), a),
    ensures
        model.layers@.len() == args.num_hidden_layers,
        splits(p, x@, args.num_attention_heads as int, args.num_key_value_heads as int, args.head_dim as int),
        ({
            let sliding = i < args.layer_types@.len() && args.layer_types@[i]@ == "sliding_attention"@;
            &&& sliding ==> turns(p, args.head_dim as int, false, offset)
            &&& !sliding ==> p.rope is None
            &&& model.layers@[i].uses_sliding == sliding
        }),
        model.layers@[i].mlp is Sparse <==> i >= args.num_dense_layers,
        model.layers@[i].self_attn.rope_base.bits == args.rope_theta.bits,
        model.mup_enabled == args.mup_enabled,
        model.tied == args.tie_word_embeddings,
        causal(a, length, has_mask, 0),
{
    afmoe::validated_config_is_usable(args, refusal);
    assert(model.layers@[i].describes(args, i));
    assert(args.num_attention_heads * args.head_dim <= 4096 * 8192) by (nonlinear_arith)
        requires args.num_attention_heads <= 4096, args.head_dim <= 8192;
    assert(0 <= args.num_attention_heads * args.head_dim) by (nonlinear_arith)
        requires args.num_attention_heads >= 0, args.head_dim >= 0;
}

/// A single token of AFMoE is masked on no layer. A prompt is masked on every layer, by the mask of
/// the layer's own kind, which is sized by the first cache of that kind; only a sliding layer's
/// cache rotates, over the declared window, and only its mask has that window.
pub proof fn afmoe_masks_follow_the_layers(
    args: afmoe::ModelArgs,
    weights: WeightMap,
    answers: PackingAnswers,
    refusal: Option<&str>,
    model: afmoe::AfmoeModel,
    steps: Steps,
    seq_len: i32,
    live: Vec<i32>,
    masks: afmoe::MaskPlan,
    i: usize,
    choice: afmoe::MaskChoice,
    caches: Vec<afmoe::CacheFlavour>,
)
    requires
        call_ensures(
            afmoe::AfmoeModel::from_weights,
            (&weights, &args, &answers, refusal),
            Build::Ready(model, steps),
        ),
        i < model.layers@.len(),
        call_ensures(afmoe::AfmoeModel::forward, (&model, seq_len, &live), masks),
        call_ensures(afmoe::AfmoeModel::layer_mask, (&model, &masks, i), choice),
        call_ensures(afmoe::AfmoeModel::make_internal_caches, (&model,), caches),
    ensures
        ({
            let sliding = i < args.layer_types@.len() && args.layer_types@[i as int]@ == "sliding_attention"@;
            &&& seq_len <= 1 ==> choice == afmoe::MaskChoice::Nothing && masks.full is None && masks.sliding is None
            &&& seq_len >= 2 && sliding ==> choice == afmoe::MaskChoice::Sliding && exists|j: int|
                0 <= j <= i && #[trigger] model.layers@[j].uses_sliding && masks.sliding == Some(
                    (live@[j], args.sliding_window as i32),
                ) && args.sliding_window <= i32::MAX && forall|h: int| 0 <= h < j ==> !#[trigger] model.layers@[h].uses_sliding
            &&& seq_len >= 2 && !sliding ==> choice == afmoe::MaskChoice::Full && exists|j: int|
                0 <= j <= i && !#[trigger] model.layers@[j].uses_sliding && masks.full == Some(live@[j]) && forall|h: int|
                    0 <= h < j ==> #[trigger] model.layers@[h].uses_sliding
            &&& caches@.len() == model.layers@.len()
            &&& caches@[i as int] == (if sliding {
                afmoe::CacheFlavour::Rotating { window: args.sliding_window as i32 }
            } else {
                afmoe::CacheFlavour::Standard
            })
        }),
{
    assert forall|h: int| 0 <= h < model.layers@.len() implies #[trigger] model.layers@[h].uses_sliding == args.slides(h) by {
        assert(model.layers@[h].describes(args, h));
    }
    if args.slides(i as int) {
        assert(args.some_layer_slides());
        let j = model.sliding_index->0 as int;
        assert(model.layers@[j].uses_sliding);
    } else {
        let j = model.full_attention_index->0 as int;
        assert(!model.layers@[j].uses_sliding);
    }
}

/// A prompt of an AFMoE model without full-attention layers has a causal mask over nothing before it;
/// one without sliding layers has no windowed mask.
pub proof fn afmoe_masks_of_missing_kinds(model: afmoe::AfmoeModel, seq_len: i32, live: Vec<i32>, masks: afmoe::MaskPlan)
    requires
        call_ensures(afmoe::AfmoeModel::forward, (&model, seq_len, &live), masks),
        seq_len >= 2,
    ensures
        model.full_attention_index is None ==> masks.full == Some(0i32),
        model.full_attention_index matches Some(i) ==> masks.full == Some(live@[i as int]),
        model.sliding_index is None ==> masks.sliding is None,
        model.sliding_index matches Some(i) ==> masks.sliding == Some((live@[i as int], model.sliding_window)),
{
}

/// The mask of a kind that no layer of Cohere2 MoE has is sized by the first cache.
pub proof fn cohere2_moe_masks_of_missing_kinds(
    args: cohere2_moe::Cohere2MoeConfig,
    weights: WeightMap,
    r: (cohere2_moe::Cohere2MoeModel, Steps),
    seq_len: usize,
    live: Vec<i32>,
    masks: Option<cohere2_moe::MaskPlan>,
)
    requires
        call_ensures(cohere2_moe::Cohere2MoeModel::from_weights, (&weights, &args), r),
        call_ensures(cohere2_moe::Cohere2MoeModel::run_layers, (&r.0, seq_len, &live), masks),
    ensures
        masks matches Some(m) ==> ((forall|j: int|
            0 <= j < r.0.layers@.len() ==> !#[trigger] r.0.layers@[j].uses_sliding) ==> m.sliding.0 == live@[0]),
        masks matches Some(m) ==> ((forall|j: int|
            0 <= j < r.0.layers@.len() ==> #[trigger] r.0.layers@[j].uses_sliding) ==> m.full == live@[0]),
{
    assert forall|h: int| 0 <= h < r.0.layers@.len() implies #[trigger] r.0.layers@[h].uses_sliding == args.slides(h) by {
        assert(r.0.layers@[h].describes(args, h));
    }
    if forall|j: int| 0 <= j < r.0.layers@.len() ==> !#[trigger] r.0.layers@[j].uses_sliding {
        assert forall|j: int| 0 <= j < args.num_hidden_layers implies args.slides(j) != true by {
            assert(!r.0.layers@[j].uses_sliding);
        }
    }
    if forall|j: int| 0 <= j < r.0.layers@.len() ==> #[trigger] r.0.layers@[j].uses_sliding {
        assert forall|j: int| 0 <= j < args.num_hidden_layers implies args.slides(j) != false by {
            assert(r.0.layers@[j].uses_sliding);
        }
    }
}

/// Every attention block splits its input into its own heads, and rotates, where it does, as many
/// channels as it is told from the given position on.
pub proof fn blocks_split_into_their_own_heads(
    a: afmoe::Attention,
    p: apertus::Attention,
    c: cohere::Attention,
    d: cohere2::Cohere2Attention,
    e: cohere2_moe::Cohere2MoeAttention,
    x: Vec<i32>,
    offset: i32,
    ra: HeadPlan,
    rp: HeadPlan,
    rc: HeadPlan,
    rd: HeadPlan,
    re: HeadPlan,
)
    requires
        i32::MIN <= a.num_heads * a.head_dim <= i32::MAX,
        i32::MIN <= p.num_heads * p.head_dim <= i32::MAX,
        i32::MIN <= c.num_heads * c.head_dim <= i32::MAX,
        i32::MIN <= d.num_heads * d.head_dim <= i32::MAX,
        i32::MIN <= e.num_heads * e.head_dim <= i32::MAX,
        call_ensures(afmoe::Attention::forward, (&a, &x, offset), ra),
        call_ensures(apertus::Attention::forward, (&p, &x, offset), rp),
        call_ensures(cohere::Attention::forward, (&c, &x, offset), rc),
        call_ensures(cohere2::Cohere2Attention::forward, (&d, &x, offset), rd),
        call_ensures(cohere2_moe::Cohere2MoeAttention::forward, (&e, &x, offset), re),
    ensures
        splits(ra, x@, a.num_heads as int, a.num_kv_heads as int, a.head_dim as int),
        splits(rp, x@, p.num_heads as int, p.num_kv_heads as int, p.head_dim as int),
        splits(rc, x@, c.num_heads as int, c.num_kv_heads as int, c.head_dim as int),
        splits(rd, x@, d.num_heads as int, d.num_kv_heads as int, d.head_dim as int),
        splits(re, x@, e.num_heads as int, e.num_kv_heads as int, e.head_dim as int),
        ra.rope is Some <==> a.uses_rope,
        rd.rope is Some <==> d.use_sliding_window,
        re.rope is Some <==> e.use_rope,
        ra.rope is Some ==> turns(ra, a.head_dim as int, false, offset),
        turns(rp, p.rope_dims as int, false, offset),
        turns(rc, c.rope_dims as int, true, offset),
        rd.rope is Some ==> turns(rd, d.rope_dims as int, true, offset),
        re.rope is Some ==> turns(re, e.rope_dims as int, true, offset),
{
}

/// Every block that may get a prompt without a mask masks it itself, and no other pass.
pub proof fn unmasked_prompts_are_masked_by_the_kernel(
    a: afmoe::Attention,
    p: apertus::Attention,
    c: cohere::Attention,
    b: baichuan::BaichuanAttention,
    length: i32,
    has_mask: bool,
    ra: AttendPlan,
    rp: AttendPlan,
    rc: AttendPlan,
    rb: AttendPlan,
)
    requires
        call_ensures(afmoe::Attention::attend, (&a, length, has_mask), ra),
        call_ensures(apertus::Attention::attend, (&p, length, has_mask), rp),
        call_ensures(cohere::Attention::attend, (&c, length, has_mask), rc),
        call_ensures(baichuan::BaichuanAttention::attend, (&b, length, has_mask), rb),
    ensures
        causal(ra, length, has_mask, 0),
        causal(rp, length, has_mask, 0),
        causal(rc, length, has_mask, 0),
        causal(rb, length, has_mask, match b.sliding_window {
            Some(w) => w as int,
            None => 0,
        }),
{
}

} // verus!
