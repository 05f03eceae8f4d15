//! What a load takes out of a checkpoint: for every layer each tensor that its blocks compute with,
//! once, in order, and nothing else.
use vstd::prelude::*;
use vstd::string::*;
use crate::afmoe;
use crate::afmoe::AfmoeModel;
use crate::apertus;
use crate::apertus::ApertusModel;
use crate::baichuan;
use crate::baichuan::{BaichuanConfig, BaichuanModel};
use crate::bailing_moe;
use crate::bailing_moe::BailingMoeModel;
use crate::bailing_moe_linear;
use crate::bailing_moe_linear::BailingMoeLinearModel;
use crate::checkpoint_laws::{bailing_layer_fits, lemma_bailing_layers, lemma_ling_layers, ling_layer_fits};
use crate::cohere;
use crate::cohere::CohereModel;
use crate::cohere2;
use crate::cohere2::{Cohere2Config, Cohere2Model};
use crate::cohere2_moe;
use crate::cohere2_moe::{Cohere2MoeConfig, Cohere2MoeModel};
use crate::steps::{Action, Build, Step, StepKind, StepView, Steps};
use crate::text::dec;
use crate::weights::{PackingAnswers, WeightMap};

verus! {

pub open spec fn table(key: Seq<char>) -> StepView {
    StepView { kind: StepKind::Embedding, key }
}

pub open spec fn linear(key: Seq<char>) -> StepView {
    StepView { kind: StepKind::Linear, key }
}

pub open spec fn fused(key: Seq<char>) -> StepView {
    StepView { kind: StepKind::FusedQkv, key }
}

pub open spec fn experts(key: Seq<char>) -> StepView {
    StepView { kind: StepKind::Experts, key }
}

pub open spec fn tensor(key: Seq<char>) -> StepView {
    StepView { kind: StepKind::Tensor, key }
}

pub open spec fn maybe(key: Seq<char>) -> StepView {
    StepView { kind: StepKind::OptionalTensor, key }
}

pub open spec fn scalar(key: Seq<char>) -> StepView {
    StepView { kind: StepKind::Scalar, key }
}

pub open spec fn maybe_scalar(key: Seq<char>) -> StepView {
    StepView { kind: StepKind::OptionalScalar, key }
}

/// Nothing, or the steps of a part that a config has.
pub open spec fn only_if(part: bool, block: Seq<StepView>) -> Seq<StepView> {
    if part { block } else { Seq::empty() }
}

/// The three projections of a SwiGLU block.
pub open spec fn swiglu(m: Seq<char>) -> Seq<StepView> {
    seq![linear(m + ".gate_proj"@), linear(m + ".up_proj"@), linear(m + ".down_proj"@)]
}

/// The steps of `block` stand in `s`, side by side and in order.
pub open spec fn stands_in(block: Seq<StepView>, s: Seq<StepView>) -> bool {
    exists|b: int| stands_at(block, s, b)
}

/// The steps of `block` stand in `s` from number `b` on.
pub open spec fn stands_at(block: Seq<StepView>, s: Seq<StepView>, b: int) -> bool {
    0 <= b && b + block.len() <= s.len() && s.subrange(b, b + block.len()) == block
}

proof fn lemma_stands_behind(s: Seq<StepView>, block: Seq<StepView>)
    ensures stands_in(block, s + block),
{
    assert((s + block).subrange(s.len() as int, s.len() + block.len() as int) =~= block);
    assert(stands_at(block, s + block, s.len() as int));
}

proof fn lemma_stands_in_longer(block: Seq<StepView>, s: Seq<StepView>, tail: Seq<StepView>)
    requires stands_in(block, s),
    ensures stands_in(block, s + tail),
{
    let b = choose|b: int| stands_at(block, s, b);
    assert((s + tail).subrange(b, b + block.len()) =~= s.subrange(b, b + block.len()));
    assert(stands_at(block, s + tail, b));
}

/// The steps that layer `i` of Apertus takes.
pub open spec fn apertus_layer(args: apertus::ModelArgs, i: nat) -> Seq<StepView> {
    let p = "model.layers."@ + dec(i);
    let a = p + ".self_attn"@;
    let m = p + ".mlp"@;
    seq![linear(a + ".q_proj"@), linear(a + ".k_proj"@), linear(a + ".v_proj"@), linear(a + ".o_proj"@)]
        + only_if(args.qk_norm, seq![tensor(a + ".q_norm.weight"@), tensor(a + ".k_norm.weight"@)])
        + seq![
            linear(m + ".up_proj"@),
            linear(m + ".down_proj"@),
            maybe_scalar(m + ".act_fn.beta"@),
            maybe_scalar(m + ".act_fn.eps"@),
            scalar(m + ".act_fn.alpha_p"@),
            scalar(m + ".act_fn.alpha_n"@),
            tensor(p + ".attention_layernorm.weight"@),
            tensor(p + ".feedforward_layernorm.weight"@),
        ]
}

/// The steps that the first `n` layers of Apertus take, layer by layer.
pub open spec fn apertus_layers(args: apertus::ModelArgs, n: nat) -> Seq<StepView>
    decreases n,
{
    if n == 0 { Seq::empty() } else { apertus_layers(args, (n - 1) as nat) + apertus_layer(args, (n - 1) as nat) }
}

proof fn lemma_apertus_layer(s: Seq<StepView>, args: apertus::ModelArgs, i: nat)
    ensures apertus::layer_steps(s, args, i) == s + apertus_layer(args, i),
{
    assert(apertus::layer_steps(s, args, i) =~= s + apertus_layer(args, i));
}

proof fn lemma_apertus_stack(args: apertus::ModelArgs, n: nat)
    ensures apertus::stack_steps(args, n) == seq![table("model.embed_tokens"@)] + apertus_layers(args, n),
    decreases n,
{
    if n > 0 {
        lemma_apertus_layer(apertus::stack_steps(args, (n - 1) as nat), args, (n - 1) as nat);
        lemma_apertus_stack(args, (n - 1) as nat);
    }
    assert(apertus::stack_steps(args, n) =~= seq![table("model.embed_tokens"@)] + apertus_layers(args, n));
}

proof fn lemma_apertus_stands(args: apertus::ModelArgs, n: nat, i: nat)
    requires i < n,
    ensures stands_in(apertus_layer(args, i), apertus_layers(args, n)),
    decreases n,
{
    let before = apertus_layers(args, (n - 1) as nat);
    if i == n - 1 {
        lemma_stands_behind(before, apertus_layer(args, i));
    } else {
        lemma_apertus_stands(args, (n - 1) as nat, i);
        lemma_stands_in_longer(apertus_layer(args, i), before, apertus_layer(args, (n - 1) as nat));
    }
}

/// The steps that layer `i` of Cohere takes.
pub open spec fn cohere_layer(args: cohere::ModelArgs, i: nat) -> Seq<StepView> {
    let p = "model.layers."@ + dec(i);
    let a = p + ".self_attn"@;
    let m = p + ".mlp"@;
    seq![linear(a + ".q_proj"@), linear(a + ".k_proj"@), linear(a + ".v_proj"@), linear(a + ".o_proj"@)]
        + only_if(args.use_qk_norm, seq![tensor(a + ".q_norm.weight"@), tensor(a + ".k_norm.weight"@)])
        + swiglu(m)
        + seq![tensor(p + ".input_layernorm"@ + ".weight"@)]
        + only_if(args.layer_norm_bias, seq![maybe(p + ".input_layernorm"@ + ".bias"@)])
}

/// The steps that the first `n` layers of Cohere take, layer by layer.
pub open spec fn cohere_layers(args: cohere::ModelArgs, n: nat) -> Seq<StepView>
    decreases n,
{
    if n == 0 { Seq::empty() } else { cohere_layers(args, (n - 1) as nat) + cohere_layer(args, (n - 1) as nat) }
}

proof fn lemma_cohere_layer(s: Seq<StepView>, args: cohere::ModelArgs, i: nat)
    ensures cohere::layer_steps(s, args, i) == s + cohere_layer(args, i),
{
    assert(cohere::layer_steps(s, args, i) =~= s + cohere_layer(args, i));
}

proof fn lemma_cohere_stack(args: cohere::ModelArgs, n: nat)
    ensures cohere::stack_steps(args, n) == seq![table("model.embed_tokens"@)] + cohere_layers(args, n),
    decreases n,
{
    if n > 0 {
        lemma_cohere_layer(cohere::stack_steps(args, (n - 1) as nat), args, (n - 1) as nat);
        lemma_cohere_stack(args, (n - 1) as nat);
    }
    assert(cohere::stack_steps(args, n) =~= seq![table("model.embed_tokens"@)] + cohere_layers(args, n));
}

proof fn lemma_cohere_stands(args: cohere::ModelArgs, n: nat, i: nat)
    requires i < n,
    ensures stands_in(cohere_layer(args, i), cohere_layers(args, n)),
    decreases n,
{
    let before = cohere_layers(args, (n - 1) as nat);
    if i == n - 1 {
        lemma_stands_behind(before, cohere_layer(args, i));
    } else {
        lemma_cohere_stands(args, (n - 1) as nat, i);
        lemma_stands_in_longer(cohere_layer(args, i), before, cohere_layer(args, (n - 1) as nat));
    }
}

/// The steps that layer `i` of Cohere2 takes.
pub open spec fn cohere2_layer(i: nat) -> Seq<StepView> {
    let p = "model.layers."@ + dec(i);
    let a = p + ".self_attn"@;
    let m = p + ".mlp"@;
    seq![linear(a + ".o_proj"@), fused(a)]
        + swiglu(m)
        + seq![tensor(p + ".input_layernorm"@ + ".weight"@), maybe(p + ".input_layernorm"@ + ".bias"@)]
}

/// The steps that the first `n` layers of Cohere2 take, layer by layer.
pub open spec fn cohere2_layers(n: nat) -> Seq<StepView>
    decreases n,
{
    if n == 0 { Seq::empty() } else { cohere2_layers((n - 1) as nat) + cohere2_layer((n - 1) as nat) }
}

proof fn lemma_cohere2_layer(s: Seq<StepView>, i: nat)
    ensures cohere2::layer_steps(s, i) == s + cohere2_layer(i),
{
    assert(cohere2::layer_steps(s, i) =~= s + cohere2_layer(i));
}

proof fn lemma_cohere2_stack(n: nat)
    ensures cohere2::stack_steps(n) == seq![table("model.embed_tokens"@)] + cohere2_layers(n),
    decreases n,
{
    if n > 0 {
        lemma_cohere2_layer(cohere2::stack_steps((n - 1) as nat), (n - 1) as nat);
        lemma_cohere2_stack((n - 1) as nat);
    }
    assert(cohere2::stack_steps(n) =~= seq![table("model.embed_tokens"@)] + cohere2_layers(n));
}

proof fn lemma_cohere2_stands(n: nat, i: nat)
    requires i < n,
    ensures stands_in(cohere2_layer(i), cohere2_layers(n)),
    decreases n,
{
    let before = cohere2_layers((n - 1) as nat);
    if i == n - 1 {
        lemma_stands_behind(before, cohere2_layer(i));
    } else {
        lemma_cohere2_stands((n - 1) as nat, i);
        lemma_stands_in_longer(cohere2_layer(i), before, cohere2_layer((n - 1) as nat));
    }
}

/// The steps that layer `i` of Cohere2 MoE takes.
pub open spec fn cohere2_moe_layer(args: Cohere2MoeConfig, i: nat) -> Seq<StepView> {
    let p = "model.layers."@ + dec(i);
    let a = p + ".self_attn"@;
    let m = p + ".mlp"@;
    let shared = (match args.num_shared_experts { Some(n) => n, None => args.moe_num_shared_experts }) > 0;
    seq![linear(a + ".o_proj"@), fused(a)]
        + only_if(i < args.first_k_dense_replace, swiglu(m))
        + only_if(i >= args.first_k_dense_replace, seq![linear(m + ".gate"@), experts(m + ".switch_mlp"@)])
        + only_if(i >= args.first_k_dense_replace && shared, swiglu(m + ".shared_experts"@))
        + seq![tensor(p + ".input_layernorm"@ + ".weight"@)]
        + only_if(args.rms_norm_eps is None, seq![maybe(p + ".input_layernorm"@ + ".bias"@)])
}

/// The steps that the first `n` layers of Cohere2 MoE take, layer by layer.
pub open spec fn cohere2_moe_layers(args: Cohere2MoeConfig, n: nat) -> Seq<StepView>
    decreases n,
{
    if n == 0 { Seq::empty() } else { cohere2_moe_layers(args, (n - 1) as nat) + cohere2_moe_layer(args, (n - 1) as nat) }
}

#[verifier::spinoff_prover]
#[verifier::rlimit(60)]
proof fn lemma_cohere2_moe_layer(s: Seq<StepView>, args: Cohere2MoeConfig, i: nat)
    ensures cohere2_moe::layer_steps(s, args, i) == s + cohere2_moe_layer(args, i),
{
    assert(cohere2_moe::layer_steps(s, args, i) =~= s + cohere2_moe_layer(args, i));
}

proof fn lemma_cohere2_moe_stack(args: Cohere2MoeConfig, n: nat)
    ensures cohere2_moe::stack_steps(args, n) == seq![table("model.embed_tokens"@)] + cohere2_moe_layers(args, n),
    decreases n,
{
    if n > 0 {
        lemma_cohere2_moe_layer(cohere2_moe::stack_steps(args, (n - 1) as nat), args, (n - 1) as nat);
        lemma_cohere2_moe_stack(args, (n - 1) as nat);
    }
    assert(cohere2_moe::stack_steps(args, n) =~= seq![table("model.embed_tokens"@)] + cohere2_moe_layers(args, n));
}

proof fn lemma_cohere2_moe_stands(args: Cohere2MoeConfig, n: nat, i: nat)
    requires i < n,
    ensures stands_in(cohere2_moe_layer(args, i), cohere2_moe_layers(args, n)),
    decreases n,
{
    let before = cohere2_moe_layers(args, (n - 1) as nat);
    if i == n - 1 {
        lemma_stands_behind(before, cohere2_moe_layer(args, i));
    } else {
        lemma_cohere2_moe_stands(args, (n - 1) as nat, i);
        lemma_stands_in_longer(cohere2_moe_layer(args, i), before, cohere2_moe_layer(args, (n - 1) as nat));
    }
}

/// The steps that layer `i` of Baichuan takes.
pub open spec fn baichuan_layer(i: nat) -> Seq<StepView> {
    let p = "model.layers."@ + dec(i);
    let a = p + ".self_attn"@;
    let m = p + ".mlp"@;
    seq![
        tensor(a + ".conv_k"@),
        tensor(a + ".conv_v"@),
        linear(a + ".W_pack"@),
        linear(a + ".o_proj"@),
        linear(m + ".gate_proj"@),
        linear(m + ".down_proj"@),
        linear(m + ".up_proj"@),
        tensor(p + ".input_layernorm.weight"@),
        tensor(p + ".post_attention_layernorm.weight"@),
    ]
}

/// The steps that the first `n` layers of Baichuan take, layer by layer.
pub open spec fn baichuan_layers(n: nat) -> Seq<StepView>
    decreases n,
{
    if n == 0 { Seq::empty() } else { baichuan_layers((n - 1) as nat) + baichuan_layer((n - 1) as nat) }
}

proof fn lemma_baichuan_layer(s: Seq<StepView>, i: nat)
    ensures baichuan::layer_steps(s, i) == s + baichuan_layer(i),
{
    assert(baichuan::layer_steps(s, i) =~= s + baichuan_layer(i));
}

proof fn lemma_baichuan_stack(n: nat)
    ensures baichuan::stack_steps(n) == seq![table("model.embed_tokens"@)] + baichuan_layers(n),
    decreases n,
{
    if n > 0 {
        lemma_baichuan_layer(baichuan::stack_steps((n - 1) as nat), (n - 1) as nat);
        lemma_baichuan_stack((n - 1) as nat);
    }
    assert(baichuan::stack_steps(n) =~= seq![table("model.embed_tokens"@)] + baichuan_layers(n));
}

proof fn lemma_baichuan_stands(n: nat, i: nat)
    requires i < n,
    ensures stands_in(baichuan_layer(i), baichuan_layers(n)),
    decreases n,
{
    let before = baichuan_layers((n - 1) as nat);
    if i == n - 1 {
        lemma_stands_behind(before, baichuan_layer(i));
    } else {
        lemma_baichuan_stands((n - 1) as nat, i);
        lemma_stands_in_longer(baichuan_layer(i), before, baichuan_layer((n - 1) as nat));
    }
}

/// The steps that layer `i` of AFMoE takes.
pub open spec fn afmoe_layer(args: afmoe::ModelArgs, i: nat) -> Seq<StepView> {
    let p = "model.layers."@ + dec(i);
    let a = p + ".self_attn"@;
    let m = p + ".mlp"@;
    seq![
        linear(a + ".q_proj"@),
        linear(a + ".k_proj"@),
        linear(a + ".v_proj"@),
        linear(a + ".o_proj"@),
        linear(a + ".gate_proj"@),
        tensor(a + ".q_norm.weight"@),
        tensor(a + ".k_norm.weight"@),
    ] + only_if(i < args.num_dense_layers, swiglu(m))
        + only_if(
            i >= args.num_dense_layers,
            seq![maybe(m + ".expert_bias"@), linear(m + ".router.gate"@), experts(m + ".experts"@)],
        ) + only_if(i >= args.num_dense_layers && args.num_shared_experts > 0, swiglu(m + ".shared_experts"@))
        + seq![
            tensor(p + ".input_layernorm.weight"@),
            tensor(p + ".post_attention_layernorm.weight"@),
            tensor(p + ".pre_mlp_layernorm.weight"@),
            tensor(p + ".post_mlp_layernorm.weight"@),
        ]
}

/// The steps that the first `n` layers of AFMoE take, layer by layer.
pub open spec fn afmoe_layers(args: afmoe::ModelArgs, n: nat) -> Seq<StepView>
    decreases n,
{
    if n == 0 { Seq::empty() } else { afmoe_layers(args, (n - 1) as nat) + afmoe_layer(args, (n - 1) as nat) }
}

#[verifier::spinoff_prover]
#[verifier::rlimit(60)]
proof fn lemma_afmoe_layer(s: Seq<StepView>, args: afmoe::ModelArgs, i: nat)
    ensures afmoe::layer_steps(s, args, i) == s + afmoe_layer(args, i),
{
    assert(afmoe::layer_steps(s, args, i) =~= s + afmoe_layer(args, i));
}

proof fn lemma_afmoe_stack(args: afmoe::ModelArgs, n: nat)
    ensures afmoe::stack_steps(args, n) == seq![table("model.embed_tokens"@)] + afmoe_layers(args, n),
    decreases n,
{
    if n > 0 {
        lemma_afmoe_layer(afmoe::stack_steps(args, (n - 1) as nat), args, (n - 1) as nat);
        lemma_afmoe_stack(args, (n - 1) as nat);
    }
    assert(afmoe::stack_steps(args, n) =~= seq![table("model.embed_tokens"@)] + afmoe_layers(args, n));
}

proof fn lemma_afmoe_stands(args: afmoe::ModelArgs, n: nat, i: nat)
    requires i < n,
    ensures stands_in(afmoe_layer(args, i), afmoe_layers(args, n)),
    decreases n,
{
    let before = afmoe_layers(args, (n - 1) as nat);
    if i == n - 1 {
        lemma_stands_behind(before, afmoe_layer(args, i));
    } else {
        lemma_afmoe_stands(args, (n - 1) as nat, i);
        lemma_stands_in_longer(afmoe_layer(args, i), before, afmoe_layer(args, (n - 1) as nat));
    }
}

/// The steps that layer `i` of Bailing MoE takes.
pub open spec fn bailing_layer(w: Map<Seq<char>, Seq<i32>>, args: bailing_moe::ModelArgs, i: nat) -> Seq<StepView> {
    let p = "model.layers."@ + dec(i);
    let a = p + ".attention"@;
    let m = p + ".mlp"@;
    let sparse = (args.num_experts matches Some(n) && n > 0) && i >= args.first_k_dense_replace;
    let router = if w.contains_key(m + ".gate.gate_proj"@ + ".weight"@) { m + ".gate.gate_proj"@ } else { m + ".gate"@ };
    seq![linear(a + ".query_key_value"@), linear(a + ".dense"@)]
        + only_if(args.use_qk_norm, seq![tensor(a + ".query_layernorm.weight"@), tensor(a + ".key_layernorm.weight"@)])
        + only_if(!sparse, swiglu(m))
        + only_if(sparse, seq![linear(router)])
        + only_if(sparse && args.moe_router_enable_expert_bias, seq![maybe(m + ".gate.expert_bias"@)])
        + only_if(sparse, seq![experts(m + ".switch_mlp"@)])
        + only_if(
            sparse && args.num_shared_experts > 0 && args.moe_router_enable_shared_expert,
            swiglu(m + ".shared_experts"@),
        ) + seq![tensor(p + ".input_layernorm.weight"@), tensor(p + ".post_attention_layernorm.weight"@)]
}

/// The steps that the first `n` layers of Bailing MoE take, layer by layer.
pub open spec fn bailing_layers(w: Map<Seq<char>, Seq<i32>>, args: bailing_moe::ModelArgs, n: nat) -> Seq<StepView>
    decreases n,
{
    if n == 0 { Seq::empty() } else { bailing_layers(w, args, (n - 1) as nat) + bailing_layer(w, args, (n - 1) as nat) }
}

#[verifier::spinoff_prover]
#[verifier::rlimit(60)]
proof fn lemma_bailing_layer(s: Seq<StepView>, w: Map<Seq<char>, Seq<i32>>, args: bailing_moe::ModelArgs, i: nat)
    requires args.sparse(i as int) ==> bailing_moe::router_key(w, "model.layers."@ + dec(i) + ".mlp"@) is Ok,
    ensures bailing_moe::layer_steps(s, w, args, i) == s + bailing_layer(w, args, i),
{
    assert(bailing_moe::layer_steps(s, w, args, i) =~= s + bailing_layer(w, args, i));
}

proof fn lemma_bailing_stack(w: Map<Seq<char>, Seq<i32>>, args: bailing_moe::ModelArgs, n: nat)
    requires
        forall|j: nat| #![trigger bailing_moe::router_key(w, "model.layers."@ + dec(j) + ".mlp"@)] j < n && args.sparse(j as int) ==> bailing_moe::router_key(w, "model.layers."@ + dec(j) + ".mlp"@) is Ok,
    ensures bailing_moe::stack_steps(w, args, n) == seq![table("model.word_embeddings"@)] + bailing_layers(w, args, n),
    decreases n,
{
    if n > 0 {
        lemma_bailing_layer(bailing_moe::stack_steps(w, args, (n - 1) as nat), w, args, (n - 1) as nat);
        lemma_bailing_stack(w, args, (n - 1) as nat);
    }
    assert(bailing_moe::stack_steps(w, args, n) =~= seq![table("model.word_embeddings"@)] + bailing_layers(w, args, n));
}

proof fn lemma_bailing_stands(w: Map<Seq<char>, Seq<i32>>, args: bailing_moe::ModelArgs, n: nat, i: nat)
    requires i < n,
    ensures stands_in(bailing_layer(w, args, i), bailing_layers(w, args, n)),
    decreases n,
{
    let before = bailing_layers(w, args, (n - 1) as nat);
    if i == n - 1 {
        lemma_stands_behind(before, bailing_layer(w, args, i));
    } else {
        lemma_bailing_stands(w, args, (n - 1) as nat, i);
        lemma_stands_in_longer(bailing_layer(w, args, i), before, bailing_layer(w, args, (n - 1) as nat));
    }
}

/// The steps that layer `i` of Ling linear MoE takes.
pub open spec fn ling_layer(w: Map<Seq<char>, Seq<i32>>, args: bailing_moe_linear::ModelArgs, i: nat) -> Seq<StepView> {
    let p = "model.layers."@ + dec(i);
    let a = p + ".attention"@;
    let m = p + ".mlp"@;
    let sparse = (args.num_experts matches Some(n) && n > 0) && i >= args.first_k_dense_replace;
    let router = if w.contains_key(m + ".gate.gate_proj"@ + ".weight"@) { m + ".gate.gate_proj"@ } else { m + ".gate"@ };
    let g = args.layer_group_size as int;
    let global = g == 0 || (i as int + 1) % g == 0 || i >= args.num_hidden_layers as int / g * g;
    seq![linear(a + ".query_key_value"@), linear(a + ".dense"@)]
        + only_if(!global, seq![linear(a + ".g_proj"@), tensor(a + ".g_norm.weight"@)])
        + only_if(args.use_qk_norm, seq![tensor(a + ".query_layernorm.weight"@), tensor(a + ".key_layernorm.weight"@)])
        + only_if(!sparse, swiglu(m))
        + only_if(sparse, seq![linear(router)])
        + only_if(sparse && args.moe_router_enable_expert_bias, seq![maybe(m + ".gate.expert_bias"@)])
        + only_if(sparse, seq![experts(m + ".switch_mlp"@)])
        + only_if(
            sparse && args.num_shared_experts > 0 && args.moe_router_enable_shared_expert,
            swiglu(m + ".shared_experts"@),
        ) + seq![tensor(p + ".input_layernorm.weight"@), tensor(p + ".post_attention_layernorm.weight"@)]
}

/// The steps that the first `n` layers of Ling linear MoE take, layer by layer.
pub open spec fn ling_layers(w: Map<Seq<char>, Seq<i32>>, args: bailing_moe_linear::ModelArgs, n: nat) -> Seq<StepView>
    decreases n,
{
    if n == 0 { Seq::empty() } else { ling_layers(w, args, (n - 1) as nat) + ling_layer(w, args, (n - 1) as nat) }
}

#[verifier::spinoff_prover]
#[verifier::rlimit(60)]
proof fn lemma_ling_layer(s: Seq<StepView>, w: Map<Seq<char>, Seq<i32>>, args: bailing_moe_linear::ModelArgs, i: nat)
    requires args.sparse(i as int) ==> bailing_moe::router_key(w, "model.layers."@ + dec(i) + ".mlp"@) is Ok,
    ensures bailing_moe_linear::layer_steps(s, w, args, i) == s + ling_layer(w, args, i),
{
    assert(bailing_moe_linear::layer_steps(s, w, args, i) =~= s + ling_layer(w, args, i));
}

proof fn lemma_ling_stack(w: Map<Seq<char>, Seq<i32>>, args: bailing_moe_linear::ModelArgs, n: nat)
    requires
        forall|j: nat| #![trigger bailing_moe::router_key(w, "model.layers."@ + dec(j) + ".mlp"@)] j < n && args.sparse(j as int) ==> bailing_moe::router_key(w, "model.layers."@ + dec(j) + ".mlp"@) is Ok,
    ensures bailing_moe_linear::stack_steps(w, args, n) == seq![table("model.word_embeddings"@)] + ling_layers(w, args, n),
    decreases n,
{
    if n > 0 {
        lemma_ling_layer(bailing_moe_linear::stack_steps(w, args, (n - 1) as nat), w, args, (n - 1) as nat);
        lemma_ling_stack(w, args, (n - 1) as nat);
    }
    assert(bailing_moe_linear::stack_steps(w, args, n) =~= seq![table("model.word_embeddings"@)] + ling_layers(w, args, n));
}

proof fn lemma_ling_stands(w: Map<Seq<char>, Seq<i32>>, args: bailing_moe_linear::ModelArgs, n: nat, i: nat)
    requires i < n,
    ensures stands_in(ling_layer(w, args, i), ling_layers(w, args, n)),
    decreases n,
{
    let before = ling_layers(w, args, (n - 1) as nat);
    if i == n - 1 {
        lemma_stands_behind(before, ling_layer(w, args, i));
    } else {
        lemma_ling_stands(w, args, (n - 1) as nat, i);
        lemma_stands_in_longer(ling_layer(w, args, i), before, ling_layer(w, args, (n - 1) as nat));
    }
}

proof fn lemma_stands_in_between(block: Seq<StepView>, head: Seq<StepView>, s: Seq<StepView>, tail: Seq<StepView>)
    requires stands_in(block, s),
    ensures stands_in(block, head + s + tail),
{
    let b = choose|b: int| stands_at(block, s, b);
    assert((head + s + tail).subrange(head.len() + b, head.len() + b + block.len()) =~= s.subrange(b, b + block.len()));
    assert(stands_at(block, head + s + tail, head.len() + b));
}

/// The steps that Apertus takes: its embedding table, its layers, and what stands behind them.
pub open spec fn apertus_model(args: apertus::ModelArgs) -> Seq<StepView> {
    seq![table("model.embed_tokens"@)] + apertus_layers(args, args.num_hidden_layers as nat) + apertus_tail(args)
}

/// The steps behind the layers of Apertus.
pub open spec fn apertus_tail(args: apertus::ModelArgs) -> Seq<StepView> {
    seq![tensor("model.norm.weight"@)] + only_if(!args.tie_word_embeddings, seq![linear("lm_head"@)])
}

/// Apertus takes its embedding table first, then of every layer, in order, each tensor that the layer
/// computes with, then what stands behind the layers. It takes nothing else.
pub proof fn apertus_load_is_complete(args: apertus::ModelArgs, r: (ApertusModel, Steps), i: nat)
    requires
        args.num_attention_heads > 0,
        call_ensures(ApertusModel::from_weights, (&args,), r),
    ensures
        r.1@ == apertus_model(args),
        i < args.num_hidden_layers ==> stands_in(apertus_layer(args, i), r.1@),
{
    lemma_apertus_stack(args, args.num_hidden_layers as nat);
    if i < args.num_hidden_layers as nat {
        lemma_apertus_stands(args, args.num_hidden_layers as nat, i);
        lemma_stands_in_between(
            apertus_layer(args, i),
            seq![table("model.embed_tokens"@)],
            apertus_layers(args, args.num_hidden_layers as nat),
            apertus_tail(args),
        );
    }
    assert(r.1@ =~= apertus_model(args));
}

/// The steps that Cohere takes: its embedding table, its layers, and what stands behind them.
pub open spec fn cohere_model(args: cohere::ModelArgs) -> Seq<StepView> {
    seq![table("model.embed_tokens"@)] + cohere_layers(args, args.num_hidden_layers as nat) + cohere_tail(args)
}

/// The steps behind the layers of Cohere.
pub open spec fn cohere_tail(args: cohere::ModelArgs) -> Seq<StepView> {
    seq![tensor("model.norm"@ + ".weight"@)] + only_if(args.layer_norm_bias, seq![maybe("model.norm"@ + ".bias"@)])
}

/// Cohere takes its embedding table first, then of every layer, in order, each tensor that the layer
/// computes with, then what stands behind the layers. It takes nothing else.
pub proof fn cohere_load_is_complete(args: cohere::ModelArgs, r: (CohereModel, Steps), i: nat)
    requires
        args.num_attention_heads > 0,
        call_ensures(CohereModel::from_weights, (&args,), r),
    ensures
        r.1@ == cohere_model(args),
        i < args.num_hidden_layers ==> stands_in(cohere_layer(args, i), r.1@),
{
    lemma_cohere_stack(args, args.num_hidden_layers as nat);
    if i < args.num_hidden_layers as nat {
        lemma_cohere_stands(args, args.num_hidden_layers as nat, i);
        lemma_stands_in_between(
            cohere_layer(args, i),
            seq![table("model.embed_tokens"@)],
            cohere_layers(args, args.num_hidden_layers as nat),
            cohere_tail(args),
        );
    }
    assert(r.1@ =~= cohere_model(args));
}

/// The steps that Cohere2 takes: its embedding table, its layers, and what stands behind them.
pub open spec fn cohere2_model(args: Cohere2Config) -> Seq<StepView> {
    seq![table("model.embed_tokens"@)] + cohere2_layers(args.num_hidden_layers as nat) + cohere2_tail(args)
}

/// The steps behind the layers of Cohere2.
pub open spec fn cohere2_tail(args: Cohere2Config) -> Seq<StepView> {
    seq![tensor("model.norm"@ + ".weight"@), maybe("model.norm"@ + ".bias"@), linear(if args.tie_word_embeddings || args.use_embedding_sharing { "model.embed_tokens"@ } else { "lm_head"@ })]
}

/// Cohere2 takes its embedding table first, then of every layer, in order, each tensor that the layer
/// computes with, then what stands behind the layers. It takes nothing else.
pub proof fn cohere2_load_is_complete(args: Cohere2Config, r: (Cohere2Model, Steps), i: nat)
    requires
        args.pattern() > 0,
        call_ensures(Cohere2Model::from_weights, (&args,), r),
    ensures
        r.1@ == cohere2_model(args),
        i < args.num_hidden_layers ==> stands_in(cohere2_layer(i), r.1@),
{
    lemma_cohere2_stack(args.num_hidden_layers as nat);
    if i < args.num_hidden_layers as nat {
        lemma_cohere2_stands(args.num_hidden_layers as nat, i);
        lemma_stands_in_between(
            cohere2_layer(i),
            seq![table("model.embed_tokens"@)],
            cohere2_layers(args.num_hidden_layers as nat),
            cohere2_tail(args),
        );
    }
    assert(r.1@ =~= cohere2_model(args));
}

/// The steps that Cohere2 MoE takes: its embedding table, its layers, and what stands behind them.
pub open spec fn cohere2_moe_model(w: Map<Seq<char>, Seq<i32>>, args: Cohere2MoeConfig) -> Seq<StepView> {
    seq![table("model.embed_tokens"@)] + cohere2_moe_layers(args, args.num_hidden_layers as nat) + cohere2_moe_tail(w, args)
}

/// The steps behind the layers of Cohere2 MoE.
pub open spec fn cohere2_moe_tail(w: Map<Seq<char>, Seq<i32>>, args: Cohere2MoeConfig) -> Seq<StepView> {
    seq![tensor("model.norm"@ + ".weight"@)] + only_if(args.rms_norm_eps is None, seq![maybe("model.norm"@ + ".bias"@)]) + seq![linear(if w.contains_key("lm_head.weight"@) { "lm_head"@ } else { "model.embed_tokens"@ })]
}

/// Cohere2 MoE takes its embedding table first, then of every layer, in order, each tensor that the layer
/// computes with, then what stands behind the layers. It takes nothing else.
pub proof fn cohere2_moe_load_is_complete(weights: WeightMap, args: Cohere2MoeConfig, r: (Cohere2MoeModel, Steps), i: nat)
    requires
        call_ensures(Cohere2MoeModel::from_weights, (&weights, &args), r),
    ensures
        r.1@ == cohere2_moe_model(weights@, args),
        i < args.num_hidden_layers ==> stands_in(cohere2_moe_layer(args, i), r.1@),
{
    lemma_cohere2_moe_stack(args, args.num_hidden_layers as nat);
    if i < args.num_hidden_layers as nat {
        lemma_cohere2_moe_stands(args, args.num_hidden_layers as nat, i);
        lemma_stands_in_between(
            cohere2_moe_layer(args, i),
            seq![table("model.embed_tokens"@)],
            cohere2_moe_layers(args, args.num_hidden_layers as nat),
            cohere2_moe_tail(weights@, args),
        );
    }
    assert(r.1@ =~= cohere2_moe_model(weights@, args));
}

/// The steps that Baichuan takes: its embedding table, its layers, and what stands behind them.
pub open spec fn baichuan_model(cfg: BaichuanConfig) -> Seq<StepView> {
    seq![table("model.embed_tokens"@)] + baichuan_layers(cfg.num_hidden_layers as nat) + baichuan_tail(cfg)
}

/// The steps behind the layers of Baichuan.
pub open spec fn baichuan_tail(cfg: BaichuanConfig) -> Seq<StepView> {
    seq![tensor("model.norm.weight"@)] + only_if(!cfg.tie_word_embeddings, seq![linear("lm_head"@)])
}

/// Baichuan takes its embedding table first, then of every layer, in order, each tensor that the layer
/// computes with, then what stands behind the layers. It takes nothing else.
pub proof fn baichuan_load_is_complete(cfg: BaichuanConfig, r: (BaichuanModel, Steps), i: nat)
    requires
        forall|i: usize| i < cfg.num_hidden_layers ==> 0 < #[trigger] cfg.heads(i) <= i32::MAX,
        call_ensures(BaichuanModel::from_weights, (&cfg,), r),
    ensures
        r.1@ == baichuan_model(cfg),
        i < cfg.num_hidden_layers ==> stands_in(baichuan_layer(i), r.1@),
{
    lemma_baichuan_stack(cfg.num_hidden_layers as nat);
    if i < cfg.num_hidden_layers as nat {
        lemma_baichuan_stands(cfg.num_hidden_layers as nat, i);
        lemma_stands_in_between(
            baichuan_layer(i),
            seq![table("model.embed_tokens"@)],
            baichuan_layers(cfg.num_hidden_layers as nat),
            baichuan_tail(cfg),
        );
    }
    assert(r.1@ =~= baichuan_model(cfg));
}

/// The steps that AFMoE takes: its embedding table, its layers, and what stands behind them.
pub open spec fn afmoe_model(args: afmoe::ModelArgs) -> Seq<StepView> {
    seq![table("model.embed_tokens"@)] + afmoe_layers(args, args.num_hidden_layers as nat) + afmoe_tail(args)
}

/// The steps behind the layers of AFMoE.
pub open spec fn afmoe_tail(args: afmoe::ModelArgs) -> Seq<StepView> {
    seq![tensor("model.norm.weight"@)] + only_if(!args.tie_word_embeddings, seq![linear("lm_head"@)])
}

/// AFMoE takes its embedding table first, then of every layer, in order, each tensor that the layer
/// computes with, then what stands behind the layers. It takes nothing else.
#[verifier::spinoff_prover]
#[verifier::rlimit(60)]
pub proof fn afmoe_load_is_complete(weights: WeightMap, args: afmoe::ModelArgs, answers: PackingAnswers, refusal: Option<&str>, r: Build<AfmoeModel>, i: nat)
    requires
        call_ensures(AfmoeModel::from_weights, (&weights, &args, &answers, refusal), r),
    ensures
        r matches Build::Ready(m, s) ==> {
            &&& s@ == afmoe_model(args)
            &&& i < args.num_hidden_layers ==> stands_in(afmoe_layer(args, i), s@)
        },
{
    if let Build::Ready(m, s) = r {
        lemma_afmoe_stack(args, args.num_hidden_layers as nat);
        if i < args.num_hidden_layers as nat {
            lemma_afmoe_stands(args, args.num_hidden_layers as nat, i);
            lemma_stands_in_between(
                afmoe_layer(args, i),
                seq![table("model.embed_tokens"@)],
                afmoe_layers(args, args.num_hidden_layers as nat),
                afmoe_tail(args),
            );
        }
        assert(s@ =~= afmoe_model(args));
    }
}

/// The output projection of Bailing MoE: as it is stored, or normalized where the config asks for that; a
/// quantized one cannot be normalized, and neither can one that is not there.
pub open spec fn bailing_head(w: Map<Seq<char>, Seq<i32>>, norm_head: bool) -> StepView {
    if norm_head && w.contains_key("lm_head.scales"@) {
        StepView {
            kind: StepKind::Refuse,
            key: "Bailing MoE"@
                + " config sets norm_head: true, but lm_head is quantized. norm_head L2-normalizes the raw lm_head weight along axis 0, and the stored tensor is a packed bit field rather than the weight itself, so applying the normalization to it would corrupt every logit. Dequantize the head or clear norm_head."@,
        }
    } else if norm_head && !w.contains_key("lm_head.weight"@) {
        StepView { kind: StepKind::Refuse, key: "Weight not found: "@ + "lm_head.weight"@ }
    } else {
        StepView { kind: if norm_head { StepKind::NormalizedHead } else { StepKind::Linear }, key: "lm_head"@ }
    }
}

/// The steps that Bailing MoE takes: its embedding table, its layers, and what stands behind them.
pub open spec fn bailing_model(w: Map<Seq<char>, Seq<i32>>, args: bailing_moe::ModelArgs) -> Seq<StepView> {
    seq![table("model.word_embeddings"@)] + bailing_layers(w, args, args.num_hidden_layers as nat) + bailing_tail(w, args)
}

/// The steps behind the layers of Bailing MoE.
pub open spec fn bailing_tail(w: Map<Seq<char>, Seq<i32>>, args: bailing_moe::ModelArgs) -> Seq<StepView> {
    seq![tensor("model.norm.weight"@)] + only_if(!args.tie_word_embeddings, seq![bailing_head(w, args.norm_head)])
}

/// Bailing MoE takes its embedding table first, then of every layer, in order, each tensor that the layer
/// computes with, then what stands behind the layers. It takes nothing else.
#[verifier::spinoff_prover]
#[verifier::rlimit(60)]
pub proof fn bailing_load_is_complete(weights: WeightMap, args: bailing_moe::ModelArgs, answers: PackingAnswers, refusal: Option<&str>, r: Build<BailingMoeModel>, i: nat)
    requires
        call_ensures(BailingMoeModel::from_weights, (&weights, &args, &answers, refusal), r),
    ensures
        r matches Build::Ready(m, s) ==> {
            &&& s@ == bailing_model(weights@, args)
            &&& i < args.num_hidden_layers ==> stands_in(bailing_layer(weights@, args, i), s@)
        },
{
    if let Build::Ready(m, s) = r {
        let c = bailing_moe::checkpoint_view(weights@, answers@, args);
        bailing_moe::validated_config_is_usable(args, refusal);
        lemma_bailing_layers(c, args, 0);
        assert forall|j: nat|
            #![trigger bailing_moe::router_key(weights@, "model.layers."@ + dec(j) + ".mlp"@)]
            j < args.num_hidden_layers && args.sparse(j as int) implies bailing_moe::router_key(
            weights@,
            "model.layers."@ + dec(j) + ".mlp"@,
        ) is Ok by {
            assert(bailing_layer_fits(c, args, j));
        }
        lemma_bailing_stack(weights@, args, args.num_hidden_layers as nat);
        if i < args.num_hidden_layers as nat {
            lemma_bailing_stands(weights@, args, args.num_hidden_layers as nat, i);
            lemma_stands_in_between(
                bailing_layer(weights@, args, i),
                seq![table("model.word_embeddings"@)],
                bailing_layers(weights@, args, args.num_hidden_layers as nat),
                bailing_tail(weights@, args),
            );
        }
        assert(s@ =~= bailing_model(weights@, args));
    }
}

/// The output projection of Ling linear MoE: as it is stored, or normalized where the config asks for that; a
/// quantized one cannot be normalized, and neither can one that is not there.
pub open spec fn ling_head(w: Map<Seq<char>, Seq<i32>>, norm_head: bool) -> StepView {
    if norm_head && w.contains_key("lm_head.scales"@) {
        StepView {
            kind: StepKind::Refuse,
            key: "Ling linear MoE"@
                + " config sets norm_head: true, but lm_head is quantized. norm_head L2-normalizes the raw lm_head weight along axis 0, and the stored tensor is a packed bit field rather than the weight itself, so applying the normalization to it would corrupt every logit. Dequantize the head or clear norm_head."@,
        }
    } else if norm_head && !w.contains_key("lm_head.weight"@) {
        StepView { kind: StepKind::Refuse, key: "Weight not found: "@ + "lm_head.weight"@ }
    } else {
        StepView { kind: if norm_head { StepKind::NormalizedHead } else { StepKind::Linear }, key: "lm_head"@ }
    }
}

/// The steps that Ling linear MoE takes: its embedding table, its layers, and what stands behind them.
pub open spec fn ling_model(w: Map<Seq<char>, Seq<i32>>, args: bailing_moe_linear::ModelArgs) -> Seq<StepView> {
    seq![table("model.word_embeddings"@)] + ling_layers(w, args, args.num_hidden_layers as nat) + ling_tail(w, args)
}

/// The steps behind the layers of Ling linear MoE.
pub open spec fn ling_tail(w: Map<Seq<char>, Seq<i32>>, args: bailing_moe_linear::ModelArgs) -> Seq<StepView> {
    seq![tensor("model.norm.weight"@)] + only_if(!args.tie_word_embeddings, seq![ling_head(w, args.norm_head)])
}

/// Ling linear MoE takes its embedding table first, then of every layer, in order, each tensor that the layer
/// computes with, then what stands behind the layers. It takes nothing else.
#[verifier::spinoff_prover]
#[verifier::rlimit(60)]
pub proof fn ling_load_is_complete(weights: WeightMap, args: bailing_moe_linear::ModelArgs, answers: PackingAnswers, refusal: Option<&str>, chunked_prefill: bool, r: Build<BailingMoeLinearModel>, i: nat)
    requires
        call_ensures(BailingMoeLinearModel::from_weights, (&weights, &args, &answers, refusal, chunked_prefill), r),
    ensures
        r matches Build::Ready(m, s) ==> {
            &&& s@ == ling_model(weights@, args)
            &&& i < args.num_hidden_layers ==> stands_in(ling_layer(weights@, args, i), s@)
        },
{
    if let Build::Ready(m, s) = r {
        let c = bailing_moe_linear::checkpoint_view(weights@, answers@, args);
        bailing_moe_linear::validated_config_is_usable(args, refusal);
        lemma_ling_layers(c, args, 0);
        assert forall|j: nat|
            #![trigger bailing_moe::router_key(weights@, "model.layers."@ + dec(j) + ".mlp"@)]
            j < args.num_hidden_layers && args.sparse(j as int) implies bailing_moe::router_key(
            weights@,
            "model.layers."@ + dec(j) + ".mlp"@,
        ) is Ok by {
            assert(ling_layer_fits(c, args, j));
        }
        lemma_ling_stack(weights@, args, args.num_hidden_layers as nat);
        if i < args.num_hidden_layers as nat {
            lemma_ling_stands(weights@, args, args.num_hidden_layers as nat, i);
            lemma_stands_in_between(
                ling_layer(weights@, args, i),
                seq![table("model.word_embeddings"@)],
                ling_layers(weights@, args, args.num_hidden_layers as nat),
                ling_tail(weights@, args),
            );
        }
        assert(s@ =~= ling_model(weights@, args));
    }
}

/// A step takes a tensor exactly where one is stored under its key. One that must be there ends the load
/// where it is not, one that may be missing is skipped; projections and tables are the engine's to
/// build, and a refusal always ends the load with its own words.
pub proof fn steps_ask_for_what_is_stored(s: Step, weights: WeightMap, r: Action)
    requires
        call_ensures(Step::action, (&s, &weights), r),
    ensures
        ({
            let there = weights@.contains_key(s.key@);
            match s.kind {
                StepKind::Tensor | StepKind::Scalar => {
                    &&& there <==> r is Take
                    &&& !there ==> (r matches Action::Fail(e) && e@ == "Weight not found: "@ + s.key@)
                },
                StepKind::OptionalTensor | StepKind::OptionalScalar => {
                    &&& there ==> r is Take
                    &&& !there ==> r is Skip
                },
                StepKind::Refuse => r matches Action::Fail(e) && e@ == s.key@,
                StepKind::Embedding | StepKind::Linear | StepKind::FusedQkv | StepKind::Experts
                | StepKind::NormalizedHead => r is Build,
            }
        }),
{
}

/// Decoder layers are named by their number.
pub proof fn layers_are_named_by_number(i: usize, r: String, digits: String)
    requires
        call_ensures(crate::weights::layer_prefix, (i,), r),
        call_ensures(crate::text::decimal, (i as u64,), digits),
    ensures
        r@ == "model.layers."@ + digits@,
{
}

/// A layer of Apertus adds its own steps behind those that are there, and no others.
pub proof fn apertus_layer_adds_its_steps(args: apertus::ModelArgs, i: usize, steps: &mut Steps, r: apertus::TransformerBlock)
    requires
        call_ensures(apertus::TransformerBlock::from_weights, (&args, i, steps), r),
    ensures
        final(steps)@ == old(steps)@ + apertus_layer(args, i as nat),
{
    lemma_apertus_layer(old(steps)@, args, i as nat);
}

/// A layer of Cohere adds its own steps behind those that are there, and no others.
pub proof fn cohere_layer_adds_its_steps(args: cohere::ModelArgs, i: usize, steps: &mut Steps, r: cohere::TransformerBlock)
    requires
        call_ensures(cohere::TransformerBlock::from_weights, (&args, i, steps), r),
    ensures
        final(steps)@ == old(steps)@ + cohere_layer(args, i as nat),
{
    lemma_cohere_layer(old(steps)@, args, i as nat);
}

/// A layer of Cohere2 adds its own steps behind those that are there, and no others.
pub proof fn cohere2_layer_adds_its_steps(args: Cohere2Config, i: usize, steps: &mut Steps, r: cohere2::Cohere2TransformerBlock)
    requires
        call_ensures(cohere2::Cohere2TransformerBlock::from_weights, (&args, i, steps), r),
    ensures
        final(steps)@ == old(steps)@ + cohere2_layer(i as nat),
{
    lemma_cohere2_layer(old(steps)@, i as nat);
}

/// A layer of Cohere2 MoE adds its own steps behind those that are there, and no others.
pub proof fn cohere2_moe_layer_adds_its_steps(args: Cohere2MoeConfig, i: usize, steps: &mut Steps, r: cohere2_moe::Cohere2MoeDecoderLayer)
    requires
        call_ensures(cohere2_moe::Cohere2MoeDecoderLayer::from_weights, (&args, i, steps), r),
    ensures
        final(steps)@ == old(steps)@ + cohere2_moe_layer(args, i as nat),
{
    lemma_cohere2_moe_layer(old(steps)@, args, i as nat);
}

/// A layer of Baichuan adds its own steps behind those that are there, and no others.
pub proof fn baichuan_layer_adds_its_steps(cfg: BaichuanConfig, i: usize, steps: &mut Steps, r: baichuan::BaichuanDecoderLayer)
    requires
        call_ensures(baichuan::BaichuanDecoderLayer::from_weights, (&cfg, i, steps), r),
    ensures
        final(steps)@ == old(steps)@ + baichuan_layer(i as nat),
{
    lemma_baichuan_layer(old(steps)@, i as nat);
}

/// A layer of AFMoE adds its own steps behind those that are there, and no others.
pub proof fn afmoe_layer_adds_its_steps(args: afmoe::ModelArgs, i: usize, steps: &mut Steps, r: afmoe::DecoderLayer)
    requires
        call_ensures(afmoe::DecoderLayer::from_weights, (&args, i, steps), r),
    ensures
        final(steps)@ == old(steps)@ + afmoe_layer(args, i as nat),
{
    lemma_afmoe_layer(old(steps)@, args, i as nat);
}

/// A layer of Bailing MoE adds its own steps behind those that are there, and no others.
pub proof fn bailing_layer_adds_its_steps(weights: WeightMap, args: bailing_moe::ModelArgs, i: usize, steps: &mut Steps, r: Result<bailing_moe::DecoderLayer, String>)
    requires
        call_ensures(bailing_moe::DecoderLayer::from_weights, (&weights, &args, i, steps), r),
    ensures
        r is Ok ==> final(steps)@ == old(steps)@ + bailing_layer(weights@, args, i as nat),
{
    if r is Ok {
        lemma_bailing_layer(old(steps)@, weights@, args, i as nat);
    }
}

/// A layer of Ling linear MoE adds its own steps behind those that are there, and no others.
pub proof fn ling_layer_adds_its_steps(weights: WeightMap, args: bailing_moe_linear::ModelArgs, chunked_prefill: bool, i: usize, steps: &mut Steps, r: Result<bailing_moe_linear::DecoderLayer, String>)
    requires
        call_ensures(bailing_moe_linear::DecoderLayer::from_weights, (&weights, &args, i, chunked_prefill, steps), r),
    ensures
        r is Ok ==> final(steps)@ == old(steps)@ + ling_layer(weights@, args, i as nat),
{
    if r is Ok {
        lemma_ling_layer(old(steps)@, weights@, args, i as nat);
    }
}

/// No key of a layer stands in it twice.
pub open spec fn apart(s: Seq<StepView>) -> bool {
    forall|a: int, b: int| 0 <= a < b < s.len() ==> (#[trigger] s[a]).key != (#[trigger] s[b]).key
}

/// Where the keys of a layer differ behind its name of `n` characters: in their length, else in the
/// projection that they name, else in their last character.
pub open spec fn mark(k: Seq<char>, n: int) -> (int, char) {
    let l = k.len() - n;
    (l, if l == 17 || l == 24 { k[n + 11] } else if l == 19 { k[n + 18] } else { ' ' })
}

/// An Apertus layer takes nothing twice.
#[verifier::spinoff_prover]
#[verifier::rlimit(60)]
pub proof fn apertus_layer_takes_nothing_twice(args: apertus::ModelArgs, i: nat)
    ensures
        apart(apertus_layer(args, i)),
{
    let p = "model.layers."@ + dec(i);
    let n = p.len() as int;
    let s = apertus_layer(args, i);
    reveal_strlit(".self_attn");
    reveal_strlit(".q_proj");
    reveal_strlit(".k_proj");
    reveal_strlit(".v_proj");
    reveal_strlit(".o_proj");
    reveal_strlit(".q_norm.weight");
    reveal_strlit(".k_norm.weight");
    reveal_strlit(".mlp");
    reveal_strlit(".up_proj");
    reveal_strlit(".down_proj");
    reveal_strlit(".act_fn.beta");
    reveal_strlit(".act_fn.eps");
    reveal_strlit(".act_fn.alpha_p");
    reveal_strlit(".act_fn.alpha_n");
    reveal_strlit(".attention_layernorm.weight");
    reveal_strlit(".feedforward_layernorm.weight");
    if args.qk_norm {
        assert(mark(s[0].key, n) == (17int, 'q'));
        assert(mark(s[1].key, n) == (17int, 'k'));
        assert(mark(s[2].key, n) == (17int, 'v'));
        assert(mark(s[3].key, n) == (17int, 'o'));
        assert(mark(s[4].key, n) == (24int, 'q'));
        assert(mark(s[5].key, n) == (24int, 'k'));
        assert(mark(s[6].key, n) == (12int, ' '));
        assert(mark(s[7].key, n) == (14int, ' '));
        assert(mark(s[8].key, n) == (16int, ' '));
        assert(mark(s[9].key, n) == (15int, ' '));
        assert(mark(s[10].key, n) == (19int, 'p'));
        assert(mark(s[11].key, n) == (19int, 'n'));
        assert(mark(s[12].key, n) == (27int, ' '));
        assert(mark(s[13].key, n) == (29int, ' '));
        assert(s.len() == 14);
    }
    if !args.qk_norm {
        assert(mark(s[0].key, n) == (17int, 'q'));
        assert(mark(s[1].key, n) == (17int, 'k'));
        assert(mark(s[2].key, n) == (17int, 'v'));
        assert(mark(s[3].key, n) == (17int, 'o'));
        assert(mark(s[4].key, n) == (12int, ' '));
        assert(mark(s[5].key, n) == (14int, ' '));
        assert(mark(s[6].key, n) == (16int, ' '));
        assert(mark(s[7].key, n) == (15int, ' '));
        assert(mark(s[8].key, n) == (19int, 'p'));
        assert(mark(s[9].key, n) == (19int, 'n'));
        assert(mark(s[10].key, n) == (27int, ' '));
        assert(mark(s[11].key, n) == (29int, ' '));
        assert(s.len() == 12);
    }
    assert forall|a: int, b: int| 0 <= a < b < s.len() implies (#[trigger] s[a]).key != (#[trigger] s[b]).key by {
        assert(mark(s[a].key, n) != mark(s[b].key, n));
    }
}

} // verus!
