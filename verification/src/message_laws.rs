//! What a refusal says: which field or tensor it is about, what is there, and what would be accepted.
use vstd::prelude::*;
use vstd::string::*;
use crate::afmoe;
use crate::bailing_moe;
use crate::bailing_moe_linear;
use crate::bailing_moe_linear::{BailingLinearCache, BailingMoeLinearModel, GroupRMSNorm, Snapshot};
use crate::bert::{Activation, BertEncoder};
use crate::bert_config::{BertArgs, BertVariant, RawBertArgs};
use crate::bert_heads::{BertEmbeddingModel, BertSequenceClassifier};
use crate::limits::{
    check_dense_prefix, check_kv_heads, check_norm_eps, check_quantization_params, check_range, check_rope_theta,
    check_rotary_width, check_shared_width, dense_prefix, in_range, kv_heads, norm_eps, quantization_params, rope_scaling, shared_width, Finding,
    Routing, RoutingView,
};
use crate::single::Single;
use crate::text::{debug_text, dec, dec_int, lower, shape_text, trim};
use crate::weights::{Checkpoint, Outcome, ProjectionStyle, WeightMap};

verus! {

/// A count out of range is told with its field, its value and its limit.
pub proof fn ranges_are_told(family: &str, field: &str, value: usize, max: usize, r: Result<(), String>)
    requires
        call_ensures(check_range, (family, field, value, max), r),
    ensures
        r is Ok <==> 1 <= value <= max,
        r matches Err(e) ==> e@ == family@ + " "@ + field@ + " ("@ + dec(value as nat) + ") must be between 1 and "@ + dec(
            max as nat,
        ),
{
}

/// Key heads that do not fit the query heads are told with both counts.
pub proof fn key_heads_are_told(family: &str, kv: usize, heads: usize, r: Result<(), String>)
    requires
        call_ensures(check_kv_heads, (family, kv, heads), r),
    ensures
        r is Ok <==> 1 <= kv <= heads && heads as int % kv as int == 0,
        kv == 0 || kv > heads ==> (r matches Err(e) && e@ == family@ + " num_key_value_heads ("@ + dec(kv as nat)
            + ") must be between 1 and num_attention_heads ("@ + dec(heads as nat) + ")"@),
        1 <= kv <= heads ==> (r matches Err(e) ==> e@ == family@ + " num_attention_heads ("@ + dec(heads as nat)
            + ") must be divisible by num_key_value_heads ("@ + dec(kv as nat) + ") for grouped-query attention"@),
{
}

/// A dense prefix longer than the stack is told with both lengths.
pub proof fn dense_prefixes_are_told(family: &str, field: &str, dense: usize, layers: usize, r: Result<(), String>)
    requires
        call_ensures(check_dense_prefix, (family, field, dense, layers), r),
    ensures
        r is Ok <==> dense <= layers,
        r matches Err(e) ==> e@ == family@ + " "@ + field@ + " ("@ + dec(dense as nat)
            + ") must not exceed num_hidden_layers ("@ + dec(layers as nat) + ")"@,
{
}

/// A rotary width is taken exactly where it is even and lies between two and the head width.
pub proof fn rotary_widths_are_even_and_within_the_head(
    subject: &str,
    dims: i32,
    head_dim: usize,
    advice: &str,
    r: Result<(), String>,
)
    requires
        call_ensures(check_rotary_width, (subject, dims, head_dim, advice), r),
    ensures
        r is Ok <==> 2 <= dims <= head_dim && dims as int % 2 == 0,
{
}

/// A rotation base and a norm's epsilon are taken exactly where they are above zero and finite.
pub proof fn bases_and_epsilons_are_positive(family: &str, s: Single, r: Result<(), String>, t: Result<(), String>)
    requires
        call_ensures(check_rope_theta, (family, &s), r),
        call_ensures(check_norm_eps, (family, &s), t),
    ensures
        r is Ok <==> 0 < s.bits < 0x7f80_0000,
        t is Ok <==> 0 < s.bits < 0x7f80_0000,
{
    let e = (s.bits as nat) / 0x80_0000;
    vstd::arithmetic::div_mod::lemma_fundamental_div_mod(s.bits as int, 0x80_0000);
    assert(e < 512);
    assert(e % 256 == (if e >= 256 { (e - 256) as nat } else { e }));
}

/// What is wrong with a router is told with the numbers that do not go together. The experts come before
/// what is picked out of them, the groups before what is kept of them, and the scale last.
#[verifier::spinoff_prover]
#[verifier::rlimit(60)]
pub proof fn routers_are_told(g: Routing<'_>, r: Result<(), String>)
    requires
        call_ensures(Routing::check, (&g,), r),
    ensures
        ({
            let f = g.family@;
            let n = g.num_experts as nat;
            let k = g.num_experts_per_tok as nat;
            let m = g.n_group as nat;
            let t = g.topk_group as nat;
            let counted = 1 <= n <= 4096;
            let picked = counted && 1 <= k <= n;
            let scored = picked && (g.score@ == "sigmoid"@ || g.score@ == "softmax"@);
            let grouped = scored && m >= 1;
            let shared = grouped && (m > 1 ==> n % m == 0);
            let filled = shared && (m > 1 ==> n / m >= 2);
            let kept = filled && (m > 1 ==> 1 <= t < m);
            let bounded = g.scale.bits as int % 0x8000_0000 < 0x7f80_0000;
            &&& r is Ok <==> kept && bounded
            &&& !counted ==> (r matches Err(e) && e@ == f + " "@ + "num_experts"@ + " ("@ + dec(n)
                + ") must be between 1 and "@ + dec(4096))
            &&& counted && !picked ==> (r matches Err(e) && e@ == f + " num_experts_per_tok ("@ + dec(k)
                + ") must be between 1 and num_experts ("@ + dec(n)
                + "); the router selects that many indices out of a row of num_experts scores"@)
            &&& picked && !scored ==> (r matches Err(e) && e@ == f + " "@ + g.score_field@ + " ("@ + debug_text(g.score@)
                + ") must be "@ + g.score_choices@
                + "; an unrecognized value is rejected rather than silently falling back, because either fallback changes the routing distribution on every token while leaving the output finite and plausible"@)
            &&& scored && !grouped ==> (r matches Err(e) && e@ == f
                + " n_group must be at least 1 (1 disables grouped routing)"@)
            &&& grouped && !shared ==> (r matches Err(e) && e@ == f + " num_experts ("@ + dec(n) + ") must be divisible by n_group ("@ + dec(m)
                + "); grouped routing reshapes the score row into n_group equal groups"@)
            &&& shared && !filled ==> (r matches Err(e) && e@ == f + " n_group ("@ + dec(m) + ") leaves "@ + dec(n / m)
                + " expert(s) per group; grouped routing scores each group by the sum of its top two experts, so a group must hold at least 2"@)
            &&& filled && !kept ==> (r matches Err(e) && e@ == f + " topk_group ("@ + dec(t) + ") must be between 1 and n_group - 1 ("@ + dec((m - 1) as nat)
                + "); the grouped-routing step zeroes the bottom n_group - topk_group groups via argpartition(kth = n_group - topk_group - 1), which is out of range as soon as topk_group reaches n_group, and an MLX C++ exception crossing the cxx bridge is an uncatchable abort at the first forward pass rather than a load error"@)
            &&& kept && !bounded ==> (r matches Err(e) && e@ == f + " "@ + g.scale_field@ + " ("@ + g.scale.text@
                + ") must be finite; it multiplies every routed expert weight, so a non-finite value makes every MoE output NaN and that NaN reaches the logits without anything throwing"@)
        }),
{
    let b = g.scale.bits;
    let e = (b as nat) / 0x80_0000;
    vstd::arithmetic::div_mod::lemma_fundamental_div_mod(b as int, 0x80_0000);
    assert(e < 512);
    assert((b as int) % 0x8000_0000 == (if b >= 0x8000_0000 { b - 0x8000_0000 } else { b as int }));
    assert(e % 256 == (if e >= 256 { (e - 256) as nat } else { e }));
}

/// What is wrong with the shared experts is told with their number and their width.
pub proof fn shared_widths_are_told(
    family: &str,
    field: &str,
    detailed: bool,
    present: bool,
    one: usize,
    count: usize,
    r: Result<(), String>,
)
    requires
        call_ensures(check_shared_width, (family, field, detailed, present, one, count), r),
    ensures
        ({
            let f = family@;
            let width = one * count;
            &&& r is Ok <==> count <= 1024 && (present ==> 1 <= width <= 4_194_304)
            &&& count > 1024 ==> (r matches Err(e) && e@ == f + " num_shared_experts ("@ + dec(count as nat) + ") must not exceed "@ + dec(1024))
            &&& count <= 1024 && present && width > usize::MAX ==> (r matches Err(e) && e@ == f
                + " shared-expert width overflows: "@ + field@ + " ("@ + dec(one as nat) + ") * num_shared_experts ("@ + dec(count as nat) + ")"@)
            &&& count <= 1024 && present && width <= usize::MAX && !(1 <= width <= 4_194_304) ==> (r matches Err(e) && e@
                == (if detailed {
                f + " shared-expert width ("@ + dec(width as nat) + ", from a per-expert width of "@ + dec(one as nat) + " times num_shared_experts "@ + dec(count as nat) + ") must be between 1 and "@ + dec(4_194_304)
            } else {
                f + " shared-expert width ("@ + dec(width as nat) + ") must be between 1 and "@ + dec(4_194_304)
            }))
        }),
{
    assert(one * count >= 0) by (nonlinear_arith) requires one >= 0, count >= 0;
}

/// A rotary width that is refused is told with the width of the head, and with where to look.
pub proof fn rotary_widths_are_told(subject: &str, dims: i32, head_dim: usize, advice: &str, r: Result<(), String>)
    requires
        call_ensures(check_rotary_width, (subject, dims, head_dim, advice), r),
    ensures
        dims <= 0 || dims > head_dim ==> (r matches Err(e) && e@ == subject@ + " rotary width resolves to "@ + dec_int(dims as int)
            + " for a head of width "@ + dec(head_dim as nat) + "; it must be an even number between 2 and "@ + dec(head_dim as nat)
            + ". MLX throws on a rope `dims` outside that range, and an MLX C++ exception crossing the cxx bridge is an uncatchable abort at the first forward pass rather than a load error. Check "@
            + advice@ + "."@),
        0 < dims <= head_dim && dims as int % 2 != 0 ==> (r matches Err(e) && e@ == subject@ + " rotary width resolves to an odd "@ + dec_int(
            dims as int,
        ) + " for a head of width "@ + dec(head_dim as nat)
            + "; RoPE rotates channel pairs, so the rope `dims` must be even, and MLX throws on an odd one. Check "@
            + advice@ + "."@),
{
}

/// A rotation base or an epsilon that is refused is told as it is written.
pub proof fn bases_and_epsilons_are_told(family: &str, s: Single, r: Result<(), String>, t: Result<(), String>)
    requires
        call_ensures(check_rope_theta, (family, &s), r),
        call_ensures(check_norm_eps, (family, &s), t),
    ensures
        r matches Err(e) ==> e@ == family@ + " rope_theta ("@ + s.text@
            + ") must be a finite positive number; RoPE exponentiates it per channel, so a zero, negative or non-finite base makes every rotated channel NaN and that NaN reaches the logits without anything throwing"@,
        t matches Err(e) ==> e@ == family@ + " rms_norm_eps ("@ + s.text@
            + ") must be a finite positive number; it is added to the mean square under an rsqrt, so a non-finite, negative or zero value makes every normalized hidden state NaN and that NaN reaches the logits without anything throwing"@,
{
}

/// Quantization parameters are refused in the engine's own words, and only where there are any.
pub proof fn engine_refusals_are_passed_on(family: &str, declared: bool, refusal: Option<&str>, r: Result<(), String>)
    requires
        call_ensures(check_quantization_params, (family, declared, refusal), r),
    ensures
        r is Ok <==> !declared || refusal is None,
        r matches Err(e) ==> (refusal matches Some(f) && e@ == family@ + " config.json: "@ + f@),
{
}

/// A tensor of another shape is told by its name and with the shape that it has.
pub open spec fn shown(key: Seq<char>, shape: Seq<i32>) -> Seq<char> {
    "unexpected "@ + key + " shape "@ + shape_text(shape) + ": expected "@
}

/// A vector of another length, and a selection bias that does not match the experts, are told with the
/// length that would be accepted.
pub proof fn wrong_vectors_are_told(c: Checkpoint<'_>, key: &str, n: usize, r: Outcome, s: Outcome)
    requires
        call_ensures(Checkpoint::norm, (&c, key, n), r),
        call_ensures(Checkpoint::score_bias, (&c, key, n), s),
        c.weights@.contains_key(key@),
    ensures
        r matches Outcome::Fail(e) ==> e@ == shown(key@, c.weights@[key@]) + "["@ + dec(n as nat) + "]"@,
        s matches Outcome::Fail(e) ==> e@ == shown(key@, c.weights@[key@]) + "["@ + dec(n as nat)
            + "]; it is added to a row of that many router scores"@,
{
}

/// A projection of another shape is told with the rows that would be accepted, or with its whole shape
/// where only the columns differ. A matrix that is stored the other way round is told so by the
/// families that know which way round theirs are.
pub proof fn wrong_projections_are_told(c: Checkpoint<'_>, prefix: &str, rows: usize, columns: usize, r: Outcome)
    requires
        call_ensures(Checkpoint::projection, (&c, prefix, rows, columns), r),
        c.weights@.contains_key(prefix@ + ".weight"@),
    ensures
        ({
            let key = prefix@ + ".weight"@;
            let s = c.weights@[key];
            let there = shown(key, s);
            let quantized = c.weights@.contains_key(prefix@ + ".scales"@);
            &&& s.len() != 2 ==> (r matches Outcome::Fail(e) && e@ == there + "a 2-D [out, in] projection"@)
            &&& s.len() == 2 && s[0] != rows ==> (r matches Outcome::Fail(e) && e@ == (match c.style {
                ProjectionStyle::Plain => there + dec(rows as nat) + " rows"@,
                ProjectionStyle::Bailing => if !quantized && s[0] == columns {
                    there + dec(rows as nat) + " rows."@
                        + " That is the [in, out] orientation; Bailing builds every projection with nn.Linear, so a genuine checkpoint is already [out, in] and must not be transposed."@
                } else {
                    there + dec(rows as nat) + " rows."@
                },
                ProjectionStyle::Ling => if !quantized && s[0] == columns {
                    there + dec(rows as nat) + " rows."@
                        + " That is the [in, out] orientation; every projection here is an nn.Linear, so a genuine checkpoint is already [out, in] and must not be transposed."@
                } else {
                    there + dec(rows as nat) + " rows."@
                },
            }))
            &&& s.len() == 2 && s[0] == rows && !quantized && s[1] != columns ==> (r matches Outcome::Fail(e) && e@ == there
                + "["@ + dec(rows as nat) + ", "@ + dec(columns as nat) + "]"@)
        }),
{
}

/// A stack of experts of another shape is told with what would be accepted.
pub proof fn wrong_stacks_are_told(c: Checkpoint<'_>, prefix: &str, n: usize, rows: usize, columns: usize, r: Outcome)
    requires
        call_ensures(Checkpoint::stacked, (&c, prefix, n, rows, columns), r),
        c.weights@.contains_key(prefix@ + ".weight"@),
    ensures
        ({
            let key = prefix@ + ".weight"@;
            let s = c.weights@[key];
            let there = shown(key, s);
            &&& s.len() != 3 ==> (r matches Outcome::Fail(e) && e@ == there
                + "a 3-D [num_experts, out, in] stacked expert tensor"@)
            &&& s.len() == 3 && 0 <= s[0] < n ==> (r matches Outcome::Fail(e) && e@ == "config num_experts ("@ + dec(
                n as nat,
            ) + ") exceeds the "@ + dec(s[0] as nat) + " expert planes present in "@ + key
                + ". The router selects indices below num_experts and the gather behind gather_mm / gather_qmm does not range-check a positive index, so the missing planes would be read out of bounds and the result would reach the logits."@)
            &&& s.len() == 3 && s[0] >= n && s[1] != rows ==> (r matches Outcome::Fail(e) && e@ == there + dec(rows as nat)
                + " rows per expert"@)
            &&& s.len() == 3 && s[0] >= n && s[1] == rows && !c.weights@.contains_key(prefix@ + ".scales"@) && s[2] != columns
                ==> (r matches Outcome::Fail(e) && e@ == there + "["@ + dec(s[0] as nat) + ", "@ + dec(rows as nat) + ", "@
                + dec(columns as nat) + "]"@)
        }),
{
}

/// A config is taken where nothing is found, and otherwise refused with the first thing that is.
pub open spec fn first_fault(faults: Seq<Finding>, r: Result<(), String>) -> bool {
    match r {
        Ok(_) => forall|k: int| 0 <= k < faults.len() ==> #[trigger] faults[k] is Ok,
        Err(e) => exists|k: int|
            0 <= k < faults.len() && #[trigger] faults[k] == Err::<(), Seq<char>>(e@) && forall|j: int|
                0 <= j < k ==> #[trigger] faults[j] is Ok,
    }
}

/// What may be wrong with an AFMoE config, in the order in which it is looked at.
pub open spec fn afmoe_faults(args: afmoe::ModelArgs, refusal: Option<&str>) -> Seq<Finding> {
    let f = "AFMoE"@;
    seq![
        in_range(f, "num_attention_heads"@, args.num_attention_heads as nat, 4096),
        in_range(f, "hidden_size"@, args.hidden_size as nat, 65_536),
        in_range(f, "head_dim"@, args.head_dim as nat, 8192),
        kv_heads(f, args.num_key_value_heads as nat, args.num_attention_heads as nat),
        in_range(f, "num_hidden_layers"@, args.num_hidden_layers as nat, 1024),
        args.schedule_finding(),
        in_range(f, "intermediate_size"@, args.intermediate_size as nat, 4_194_304),
        in_range(f, "moe_intermediate_size"@, args.moe_intermediate_size as nat, 4_194_304),
        in_range(f, "vocab_size"@, args.vocab_size as nat, 16_777_216),
        in_range(f, "max_position_embeddings"@, args.max_position_embeddings as nat, 4_194_304),
        dense_prefix(f, "num_dense_layers"@, args.num_dense_layers as nat, args.num_hidden_layers as nat),
        if args.num_dense_layers < args.num_hidden_layers {
            RoutingView {
                family: f,
                score_field: "score_func"@,
                score_choices: "\"sigmoid\" (the AFMoE default) or \"softmax\""@,
                scale_field: "route_scale"@,
                num_experts: args.num_experts as nat,
                num_experts_per_tok: args.num_experts_per_tok as nat,
                score: args.score_func@,
                n_group: args.n_group as nat,
                topk_group: args.topk_group as nat,
                scale: args.route_scale,
            }.finding()
        } else {
            Ok(())
        },
        shared_width(
            f,
            "moe_intermediate_size"@,
            false,
            args.num_shared_experts > 0,
            args.moe_intermediate_size as nat,
            args.num_shared_experts as nat,
        ),
        args.rope_finding(),
        rope_scaling(f, args.rope_scaling),
        norm_eps(f, args.rms_norm_eps),
        quantization_params(f, args.quantization is Some, refusal),
    ]
}

/// An AFMoE config is refused with the first thing that is wrong with it.
#[verifier::spinoff_prover]
#[verifier::rlimit(60)]
pub proof fn afmoe_refusals_name_a_fault(args: afmoe::ModelArgs, refusal: Option<&str>, r: Result<(), String>)
    requires
        call_ensures(afmoe::ModelArgs::validate, (&args, refusal), r),
    ensures
        first_fault(afmoe_faults(args, refusal), r),
{
    let faults = afmoe_faults(args, refusal);
    assert(faults.len() == 17);
    if let Err(e) = r {
        if faults[0] is Err {
            assert(faults[0] == Err::<(), Seq<char>>(e@));
        } else if faults[1] is Err {
            assert(faults[1] == Err::<(), Seq<char>>(e@));
        } else if faults[2] is Err {
            assert(faults[2] == Err::<(), Seq<char>>(e@));
        } else if faults[3] is Err {
            assert(faults[3] == Err::<(), Seq<char>>(e@));
        } else if faults[4] is Err {
            assert(faults[4] == Err::<(), Seq<char>>(e@));
        } else if faults[5] is Err {
            assert(faults[5] == Err::<(), Seq<char>>(e@));
        } else if faults[6] is Err {
            assert(faults[6] == Err::<(), Seq<char>>(e@));
        } else if faults[7] is Err {
            assert(faults[7] == Err::<(), Seq<char>>(e@));
        } else if faults[8] is Err {
            assert(faults[8] == Err::<(), Seq<char>>(e@));
        } else if faults[9] is Err {
            assert(faults[9] == Err::<(), Seq<char>>(e@));
        } else if faults[10] is Err {
            assert(faults[10] == Err::<(), Seq<char>>(e@));
        } else if faults[11] is Err {
            assert(faults[11] == Err::<(), Seq<char>>(e@));
        } else if faults[12] is Err {
            assert(faults[12] == Err::<(), Seq<char>>(e@));
        } else if faults[13] is Err {
            assert(faults[13] == Err::<(), Seq<char>>(e@));
        } else if faults[14] is Err {
            assert(faults[14] == Err::<(), Seq<char>>(e@));
        } else if faults[15] is Err {
            assert(faults[15] == Err::<(), Seq<char>>(e@));
        } else if faults[16] is Err {
            assert(faults[16] == Err::<(), Seq<char>>(e@));
        }
    }
}

/// A field out of range is told before anything that is worked out from it: the heads before all, then
/// the hidden width, and both before what they share out.
pub proof fn afmoe_counts_are_told_first(args: afmoe::ModelArgs, refusal: Option<&str>, r: Result<(), String>)
    requires
        call_ensures(afmoe::ModelArgs::validate, (&args, refusal), r),
    ensures
        !(1 <= args.num_attention_heads <= 4096) ==> (r matches Err(e) && e@ == "AFMoE"@ + " "@ + "num_attention_heads"@
            + " ("@ + dec(args.num_attention_heads as nat) + ") must be between 1 and "@ + dec(4096)),
        1 <= args.num_attention_heads <= 4096 && !(1 <= args.hidden_size <= 65_536) ==> (r matches Err(e) && e@ == "AFMoE"@
            + " "@ + "hidden_size"@ + " ("@ + dec(args.hidden_size as nat) + ") must be between 1 and "@ + dec(65_536)),
        1 <= args.num_attention_heads <= 4096 && 1 <= args.hidden_size <= 65_536 && !(1 <= args.head_dim <= 8192) ==> (
            r matches Err(e) && e@ == "AFMoE"@ + " "@ + "head_dim"@ + " ("@ + dec(args.head_dim as nat)
                + ") must be between 1 and "@ + dec(8192)),
{
}

/// What may be wrong with a Bailing MoE config, in the order in which it is looked at.
pub open spec fn bailing_faults(args: bailing_moe::ModelArgs, refusal: Option<&str>) -> Seq<Finding> {
    let f = "Bailing MoE"@;
    let kv = match args.num_key_value_heads {
        Some(n) => n as nat,
        None => args.num_attention_heads as nat,
    };
    let wide = match args.moe_intermediate_size {
        Some(n) => n as nat,
        None => args.intermediate_size as nat,
    };
    let experts = match args.num_experts {
        Some(n) => n as nat,
        None => 0,
    };
    seq![
        in_range(f, "num_attention_heads"@, args.num_attention_heads as nat, 4096),
        in_range(f, "hidden_size"@, args.hidden_size as nat, 65_536),
        args.divides_finding(),
        kv_heads(f, kv, args.num_attention_heads as nat),
        in_range(f, "num_hidden_layers"@, args.num_hidden_layers as nat, 1024),
        in_range(f, "intermediate_size"@, args.intermediate_size as nat, 4_194_304),
        in_range(f, "moe_intermediate_size"@, wide, 4_194_304),
        in_range(f, "vocab_size"@, args.vocab_size as nat, 16_777_216),
        in_range(f, "max_position_embeddings"@, args.max_position_embeddings as nat, 4_194_304),
        dense_prefix(
            f,
            "first_k_dense_replace"@,
            args.first_k_dense_replace as nat,
            args.num_hidden_layers as nat,
        ),
        if experts > 0 {
            RoutingView {
                family: f,
                score_field: "score_function"@,
                score_choices: "\"softmax\" (the Bailing default) or \"sigmoid\""@,
                scale_field: "routed_scaling_factor"@,
                num_experts: experts,
                num_experts_per_tok: args.num_experts_per_tok as nat,
                score: args.score_function@,
                n_group: args.n_group as nat,
                topk_group: args.topk_group as nat,
                scale: args.routed_scaling_factor,
            }.finding()
        } else {
            Ok(())
        },
        args.shared_finding(),
        args.rope_finding(),
        rope_scaling(f, args.rope_scaling),
        norm_eps(f, args.rms_norm_eps),
        args.vendor_finding(),
        quantization_params(f, args.quantization is Some, refusal),
    ]
}

/// A Bailing MoE config is refused with the first thing that is wrong with it: a count out of range is
/// told before anything that divides by it.
#[verifier::spinoff_prover]
#[verifier::rlimit(60)]
pub proof fn bailing_refusals_name_a_fault(args: bailing_moe::ModelArgs, refusal: Option<&str>, r: Result<(), String>)
    requires
        call_ensures(bailing_moe::ModelArgs::validate, (&args, refusal), r),
    ensures
        first_fault(bailing_faults(args, refusal), r),
        !(1 <= args.num_attention_heads <= 4096) ==> (r matches Err(e) && e@ == "Bailing MoE"@ + " "@
            + "num_attention_heads"@ + " ("@ + dec(args.num_attention_heads as nat) + ") must be between 1 and "@ + dec(4096)),
        1 <= args.num_attention_heads <= 4096 && !(1 <= args.hidden_size <= 65_536) ==> (r matches Err(e) && e@
            == "Bailing MoE"@ + " "@ + "hidden_size"@ + " ("@ + dec(args.hidden_size as nat) + ") must be between 1 and "@
            + dec(65_536)),
{
    let faults = bailing_faults(args, refusal);
    assert(faults.len() == 17);
    if let Err(e) = r {
        if faults[0] is Err {
            assert(faults[0] == Err::<(), Seq<char>>(e@));
        } else if faults[1] is Err {
            assert(faults[1] == Err::<(), Seq<char>>(e@));
        } else if faults[2] is Err {
            assert(faults[2] == Err::<(), Seq<char>>(e@));
        } else if faults[3] is Err {
            assert(faults[3] == Err::<(), Seq<char>>(e@));
        } else if faults[4] is Err {
            assert(faults[4] == Err::<(), Seq<char>>(e@));
        } else if faults[5] is Err {
            assert(faults[5] == Err::<(), Seq<char>>(e@));
        } else if faults[6] is Err {
            assert(faults[6] == Err::<(), Seq<char>>(e@));
        } else if faults[7] is Err {
            assert(faults[7] == Err::<(), Seq<char>>(e@));
        } else if faults[8] is Err {
            assert(faults[8] == Err::<(), Seq<char>>(e@));
        } else if faults[9] is Err {
            assert(faults[9] == Err::<(), Seq<char>>(e@));
        } else if faults[10] is Err {
            assert(faults[10] == Err::<(), Seq<char>>(e@));
        } else if faults[11] is Err {
            assert(faults[11] == Err::<(), Seq<char>>(e@));
        } else if faults[12] is Err {
            assert(faults[12] == Err::<(), Seq<char>>(e@));
        } else if faults[13] is Err {
            assert(faults[13] == Err::<(), Seq<char>>(e@));
        } else if faults[14] is Err {
            assert(faults[14] == Err::<(), Seq<char>>(e@));
        } else if faults[15] is Err {
            assert(faults[15] == Err::<(), Seq<char>>(e@));
        } else if faults[16] is Err {
            assert(faults[16] == Err::<(), Seq<char>>(e@));
        }
    }
}

/// What may be wrong with a Ling linear MoE config, in the order in which it is looked at.
pub open spec fn ling_faults(args: bailing_moe_linear::ModelArgs, refusal: Option<&str>) -> Seq<Finding> {
    let f = "Ling linear MoE"@;
    let kv = match args.num_key_value_heads {
        Some(n) => n as nat,
        None => args.num_attention_heads as nat,
    };
    let wide = match args.moe_intermediate_size {
        Some(n) => n as nat,
        None => args.intermediate_size as nat,
    };
    let experts = match args.num_experts {
        Some(n) => n as nat,
        None => 0,
    };
    seq![
        in_range(f, "num_attention_heads"@, args.num_attention_heads as nat, 4096),
        in_range(f, "hidden_size"@, args.hidden_size as nat, 65_536),
        args.divides_finding(),
        in_range(f, "head_dim"@, args.spec_head_dim(), 8192),
        kv_heads(f, kv, args.num_attention_heads as nat),
        in_range(f, "num_hidden_layers"@, args.num_hidden_layers as nat, 1024),
        args.groups_finding(),
        in_range(f, "intermediate_size"@, args.intermediate_size as nat, 4_194_304),
        in_range(f, "moe_intermediate_size"@, wide, 4_194_304),
        in_range(f, "vocab_size"@, args.vocab_size as nat, 16_777_216),
        in_range(f, "max_position_embeddings"@, args.max_position_embeddings as nat, 4_194_304),
        dense_prefix(
            f,
            "first_k_dense_replace"@,
            args.first_k_dense_replace as nat,
            args.num_hidden_layers as nat,
        ),
        if experts > 0 {
            RoutingView {
                family: f,
                score_field: "score_function"@,
                score_choices: "\"softmax\" or \"sigmoid\""@,
                scale_field: "routed_scaling_factor"@,
                num_experts: experts,
                num_experts_per_tok: args.num_experts_per_tok as nat,
                score: args.score_function@,
                n_group: args.n_group as nat,
                topk_group: args.topk_group as nat,
                scale: args.routed_scaling_factor,
            }.finding()
        } else {
            Ok(())
        },
        args.shared_finding(),
        args.rope_finding(),
        rope_scaling(f, args.rope_scaling),
        norm_eps(f, args.rms_norm_eps),
        args.vendor_finding(),
        quantization_params(f, args.quantization is Some, refusal),
    ]
}

/// A config of the linear family is refused with the first thing that is wrong with it: a count out of
/// range is told before anything that divides by it.
#[verifier::spinoff_prover]
#[verifier::rlimit(60)]
pub proof fn ling_refusals_name_a_fault(args: bailing_moe_linear::ModelArgs, refusal: Option<&str>, r: Result<(), String>)
    requires
        call_ensures(bailing_moe_linear::ModelArgs::validate, (&args, refusal), r),
    ensures
        first_fault(ling_faults(args, refusal), r),
        !(1 <= args.num_attention_heads <= 4096) ==> (r matches Err(e) && e@ == "Ling linear MoE"@ + " "@
            + "num_attention_heads"@ + " ("@ + dec(args.num_attention_heads as nat) + ") must be between 1 and "@ + dec(4096)),
        1 <= args.num_attention_heads <= 4096 && !(1 <= args.hidden_size <= 65_536) ==> (r matches Err(e) && e@
            == "Ling linear MoE"@ + " "@ + "hidden_size"@ + " ("@ + dec(args.hidden_size as nat)
            + ") must be between 1 and "@ + dec(65_536)),
{
    let faults = ling_faults(args, refusal);
    assert(faults.len() == 19);
    if let Err(e) = r {
        if faults[0] is Err {
            assert(faults[0] == Err::<(), Seq<char>>(e@));
        } else if faults[1] is Err {
            assert(faults[1] == Err::<(), Seq<char>>(e@));
        } else if faults[2] is Err {
            assert(faults[2] == Err::<(), Seq<char>>(e@));
        } else if faults[3] is Err {
            assert(faults[3] == Err::<(), Seq<char>>(e@));
        } else if faults[4] is Err {
            assert(faults[4] == Err::<(), Seq<char>>(e@));
        } else if faults[5] is Err {
            assert(faults[5] == Err::<(), Seq<char>>(e@));
        } else if faults[6] is Err {
            assert(faults[6] == Err::<(), Seq<char>>(e@));
        } else if faults[7] is Err {
            assert(faults[7] == Err::<(), Seq<char>>(e@));
        } else if faults[8] is Err {
            assert(faults[8] == Err::<(), Seq<char>>(e@));
        } else if faults[9] is Err {
            assert(faults[9] == Err::<(), Seq<char>>(e@));
        } else if faults[10] is Err {
            assert(faults[10] == Err::<(), Seq<char>>(e@));
        } else if faults[11] is Err {
            assert(faults[11] == Err::<(), Seq<char>>(e@));
        } else if faults[12] is Err {
            assert(faults[12] == Err::<(), Seq<char>>(e@));
        } else if faults[13] is Err {
            assert(faults[13] == Err::<(), Seq<char>>(e@));
        } else if faults[14] is Err {
            assert(faults[14] == Err::<(), Seq<char>>(e@));
        } else if faults[15] is Err {
            assert(faults[15] == Err::<(), Seq<char>>(e@));
        } else if faults[16] is Err {
            assert(faults[16] == Err::<(), Seq<char>>(e@));
        } else if faults[17] is Err {
            assert(faults[17] == Err::<(), Seq<char>>(e@));
        } else if faults[18] is Err {
            assert(faults[18] == Err::<(), Seq<char>>(e@));
        }
    }
}

/// What the families say of fields that do not go together: heads that do not share out the width, flags
/// that nothing defines, groups of none, and a schedule that is too short.
pub proof fn families_tell_what_does_not_fit(
    b: bailing_moe::ModelArgs,
    l: bailing_moe_linear::ModelArgs,
    a: afmoe::ModelArgs,
)
    ensures
        b.hidden_size as nat % b.num_attention_heads as nat != 0 ==> b.divides_finding() == Err::<(), Seq<char>>(
            "Bailing MoE hidden_size ("@ + dec(b.hidden_size as nat) + ") must be divisible by num_attention_heads ("@ + dec(b.num_attention_heads as nat)
                + "); upstream derives head_dim as hidden_size // num_attention_heads"@,
        ),
        l.hidden_size as nat % l.num_attention_heads as nat != 0 ==> l.divides_finding() == Err::<(), Seq<char>>(
            "Ling linear MoE hidden_size ("@ + dec(l.hidden_size as nat) + ") must be divisible by num_attention_heads ("@ + dec(l.num_attention_heads as nat)
                + "); the linear-attention layers derive their head width as hidden_size // num_attention_heads regardless of any explicit head_dim"@,
        ),
        b.norm_softmax ==> b.vendor_finding() == Err::<(), Seq<char>>(
            "Bailing MoE config sets norm_softmax: true, which no released implementation defines. mlx-lm declares the field and never reads it, the vendored modeling_bailing_moe.py does not mention it, and configuration_bailing_moe.py does not name it as a parameter. Loading anyway would silently ignore a flag the checkpoint author set on purpose."@,
        ),
        l.norm_softmax ==> l.vendor_finding() == Err::<(), Seq<char>>(
            "Ling linear MoE config sets norm_softmax: true, which no released implementation defines. mlx-lm declares the field and never reads it. Loading anyway would silently ignore a flag the checkpoint author set on purpose."@,
        ),
        !l.norm_softmax && !l.use_rmsnorm ==> l.vendor_finding() == Err::<(), Seq<char>>(
            "Ling linear MoE config sets use_rmsnorm: false, which no released implementation defines. mlx-lm declares the field and never reads it: every normalizer in bailing_moe_linear.py is an nn.RMSNorm or a GroupRMSNorm unconditionally. Loading anyway would silently ignore a flag the checkpoint author set on purpose."@,
        ),
        l.layer_group_size == 0 ==> l.groups_finding() == Err::<(), Seq<char>>(
            "Ling linear MoE layer_group_size must be at least 1; it is the modulus that selects the full-attention layers, and 0 would divide by zero"@,
        ),
        l.layer_group_size > 0 && l.group_norm_size == 0 ==> l.groups_finding() == Err::<(), Seq<char>>(
            "Ling linear MoE group_norm_size must be at least 1; the linear path's output normalizer reshapes its last axis into that many groups"@,
        ),
        0 < a.layer_types@.len() < a.num_hidden_layers ==> a.schedule_finding() == Err::<(), Seq<char>>(
            "AFMoE layer_types has "@ + dec(a.layer_types@.len()) + " entries for "@ + dec(a.num_hidden_layers as nat)
                + " layers; it is the per-layer sliding/full attention schedule, and a short list would silently make every uncovered layer global"@,
        ),
{
}

/// A router that is stored in neither spelling is told with both.
pub proof fn missing_routers_are_told(weights: WeightMap, mlp: &str, r: Result<String, String>)
    requires
        call_ensures(bailing_moe::router_prefix, (&weights, mlp), r),
    ensures
        r matches Err(e) ==> e@ == "Bailing MoE router weight not found: expected "@ + mlp@ + ".gate.weight (raw checkpoint) or "@ + mlp@
            + ".gate.gate_proj.weight (mlx-lm conversion, which renames the router into the gate_proj spelling the routed experts also use)"@,
{
}

/// A group norm that cannot be laid out is told with its shape, or with its width and its groups.
pub proof fn wrong_group_norms_are_told(weight: Vec<i32>, groups: i32, eps: Single, r: Result<GroupRMSNorm, String>)
    requires
        call_ensures(GroupRMSNorm::new, (&weight, groups, &eps), r),
    ensures
        weight@.len() != 1 ==> (r matches Err(e) && e@ == "GroupRMSNorm weight shape "@ + shape_text(weight@)
            + ": expected a 1-D vector"@),
        weight@.len() == 1 ==> (r matches Err(e) ==> e@ == "GroupRMSNorm width "@ + dec_int(weight@[0] as int)
            + " is not divisible by groups "@ + dec_int(groups as int)),
{
}

/// A snapshot of another family is told with that family.
pub proof fn foreign_snapshots_are_told<T: Copy>(
    model: BailingMoeLinearModel,
    snapshot: Snapshot<T>,
    family: &str,
    token_len: usize,
    r: Result<Vec<BailingLinearCache<T>>, String>,
)
    requires
        call_ensures(Snapshot::<T>::new, (family, token_len), snapshot),
        call_ensures(BailingMoeLinearModel::restore_sequence_state::<T>, (&model, &snapshot), r),
    ensures
        r matches Err(e) ==> e@ == "cannot restore "@ + family@ + " snapshot into bailing_moe_linear"@,
{
}

/// What an encoder refuses is told: a config with the widths that do not go together, a batch with its
/// shape or its length and the limit, an activation with its name, a checkpoint of another family with
/// that family's name, and images altogether.
pub proof fn encoder_refusals_are_told(
    raw: RawBertArgs,
    variant: BertVariant,
    config: Result<BertArgs, String>,
    encoder: BertEncoder,
    shape: Vec<i32>,
    usable: usize,
    encoded: Result<(), String>,
    name: &str,
    activation: Result<Activation, String>,
    dir: &str,
    kind: &str,
    dialect: Result<BertVariant, String>,
    model: BertEmbeddingModel,
    images: usize,
    embedded: Result<(), String>,
)
    requires
        call_ensures(BertArgs::from_config, (&raw, variant), config),
        call_ensures(BertArgs::max_sequence_length, (&encoder.args,), usable),
        call_ensures(BertEncoder::encode, (&encoder, &shape), encoded),
        shape@.len() == 2 ==> shape@[1] >= 0,
        call_ensures(Activation::from_name, (name,), activation),
        call_ensures(BertSequenceClassifier::dialect_of, (dir, Some(kind)), dialect),
        images > 0,
        call_ensures(BertEmbeddingModel::embed, (&model, &shape, Some(images)), embedded),
    ensures
        raw.hidden_size == 0 || raw.num_attention_heads == 0 ==> (config matches Err(e) && e@
            == "bert config: hidden_size and num_attention_heads must be non-zero"@),
        raw.hidden_size > 0 && raw.num_attention_heads > 0 ==> (config matches Err(e) ==> e@ == "bert config: hidden_size "@
            + dec(raw.hidden_size as nat) + " is not divisible by num_attention_heads "@ + dec(
            raw.num_attention_heads as nat,
        )),
        shape@.len() != 2 ==> (encoded matches Err(e) && e@ == "bert encoder: input_ids must be [B, L], got "@ + shape_text(
            shape@,
        )),
        shape@.len() == 2 ==> (encoded matches Err(e) ==> e@ == "bert encoder: "@ + dec(shape@[1] as nat)
            + " tokens exceed the "@ + dec(usable as nat)
            + " positions this checkpoint's absolute position table addresses (max_position_embeddings = "@ + dec(
            encoder.args.max_position_embeddings as nat,
        ) + ")"@),
        activation matches Err(e) ==> e@ == "bert config: hidden_act `"@ + lower(trim(name@))
            + "` is not supported; expected gelu, gelu_new / gelu_pytorch_tanh or relu"@,
        dialect matches Err(e) ==> e@ == dir@
            + " is not a BERT or XLM-RoBERTa checkpoint; its config.json declares model_type `"@ + kind@ + "`"@,
        embedded matches Err(e) && e@ == "BERT / XLM-RoBERTa embedders do not accept image inputs"@,
{
}

} // verus!
