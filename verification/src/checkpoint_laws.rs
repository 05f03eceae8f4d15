//! What the inspection of a checkpoint promises, in terms of the stored shapes alone.
use vstd::prelude::*;
use vstd::string::*;
use crate::afmoe;
use crate::bailing_moe;
use crate::bailing_moe_linear;
use crate::text::{dec, occurs, shape_text, starts_at};
use crate::weights::{
    layer_name, unexpected_text, Checkpoint, CheckpointView, Outcome, PackingAnswers, ProjectionStyle, RequestView,
    Verdict, WeightMap,
};

verus! {

/// A vector of `n` entries is stored under `key`.
pub open spec fn vector(w: Map<Seq<char>, Seq<i32>>, key: Seq<char>, n: nat) -> bool {
    w.contains_key(key) && w[key].len() == 1 && w[key][0] == n
}

/// A quantized tensor is stored under `prefix`.
pub open spec fn packed(w: Map<Seq<char>, Seq<i32>>, prefix: Seq<char>) -> bool {
    w.contains_key(prefix + ".scales"@)
}

/// The engine has accepted the packing of the tensor under `prefix`, or there is nothing to accept.
pub open spec fn settled(
    w: Map<Seq<char>, Seq<i32>>,
    answers: Map<Seq<char>, Option<Seq<char>>>,
    prefix: Seq<char>,
) -> bool {
    packed(w, prefix) ==> w.contains_key(prefix + ".weight"@) && answers.contains_key(prefix) && answers[prefix] is None
}

/// A matrix of `rows` rows is stored under `prefix`; one that is not quantized has `columns` columns.
pub open spec fn matrix(w: Map<Seq<char>, Seq<i32>>, prefix: Seq<char>, rows: nat, columns: nat) -> bool {
    let key = prefix + ".weight"@;
    &&& w.contains_key(key)
    &&& w[key].len() == 2
    &&& w[key][0] == rows
    &&& packed(w, prefix) || w[key][1] == columns
}

/// At least `n` matrices of `rows` rows are stored under `prefix`; those that are not quantized have
/// `columns` columns.
pub open spec fn stack(w: Map<Seq<char>, Seq<i32>>, prefix: Seq<char>, n: nat, rows: nat, columns: nat) -> bool {
    let key = prefix + ".weight"@;
    &&& w.contains_key(key)
    &&& w[key].len() == 3
    &&& n == 0 || w[key][0] >= n
    &&& w[key][1] == rows
    &&& packed(w, prefix) || w[key][2] == columns
}

/// The bias beside a matrix of `rows` rows has as many entries, where one is stored.
pub open spec fn bias_fits(w: Map<Seq<char>, Seq<i32>>, prefix: Seq<char>, rows: nat) -> bool {
    w.contains_key(prefix + ".bias"@) ==> vector(w, prefix + ".bias"@, rows)
}

proof fn lemma_occurs_in_longer(s: Seq<char>, tail: Seq<char>, part: Seq<char>)
    requires occurs(s, part),
    ensures occurs(s + tail, part),
{
    let i = choose|i: int| 0 <= i && #[trigger] starts_at(s, part, i);
    assert((s + tail).subrange(i, i + part.len()) =~= s.subrange(i, i + part.len()));
    assert(starts_at(s + tail, part, i));
}

proof fn lemma_occurs_behind(head: Seq<char>, part: Seq<char>)
    ensures occurs(head + part, part),
{
    assert((head + part).subrange(head.len() as int, (head.len() + part.len()) as int) =~= part);
    assert(starts_at(head + part, part, head.len() as int));
}

proof fn lemma_unexpected_names(key: Seq<char>, shape: Seq<i32>)
    ensures occurs(unexpected_text(key, shape), key),
{
    let a = "unexpected "@ + key;
    lemma_occurs_behind("unexpected "@, key);
    lemma_occurs_in_longer(a, " shape "@, key);
    lemma_occurs_in_longer(a + " shape "@, shape_text(shape), key);
    lemma_occurs_in_longer(a + " shape "@ + shape_text(shape), ": expected "@, key);
}

/// A vector passes exactly where it is stored with its length, and is never a question. What is
/// wrong with it is told by its name.
pub proof fn norm_is_held_to_its_length(c: Checkpoint<'_>, key: &str, dim: usize, r: Outcome)
    requires call_ensures(Checkpoint::norm, (&c, key, dim), r),
    ensures
        r is Pass <==> vector(c.weights@, key@, dim as nat),
        !(r is Ask),
        !c.weights@.contains_key(key@) ==> r@ == Verdict::Fail("Weight not found: "@ + key@),
        r matches Outcome::Fail(e) ==> occurs(e@, key@),
{
    let s = c.weights@[key@];
    lemma_occurs_behind("Weight not found: "@, key@);
    lemma_unexpected_names(key@, s);
    lemma_occurs_in_longer(unexpected_text(key@, s), "["@, key@);
    lemma_occurs_in_longer(unexpected_text(key@, s) + "["@, dec(dim as nat), key@);
    lemma_occurs_in_longer(unexpected_text(key@, s) + "["@ + dec(dim as nat), "]"@, key@);
}

/// The packing of a tensor that is not quantized is never in question. That of a quantized one
/// passes exactly once the engine has accepted it, fails with what the engine said against it, and is
/// asked about, with the tensor's own shapes, as long as the engine has said nothing.
pub proof fn packing_is_the_engines_to_judge(c: Checkpoint<'_>, prefix: &str, in_features: usize, r: Outcome)
    requires call_ensures(Checkpoint::packing, (&c, prefix, in_features), r),
    ensures
        r is Pass <==> settled(c.weights@, c.answers@, prefix@),
        r is Ask <==> {
            &&& packed(c.weights@, prefix@)
            &&& c.weights@.contains_key(prefix@ + ".weight"@)
            &&& !c.answers@.contains_key(prefix@)
        },
        r matches Outcome::Ask(q) ==> {
            &&& q.prefix@ == prefix@
            &&& q.weight@ == c.weights@[prefix@ + ".weight"@]
            &&& q.scales@ == c.weights@[prefix@ + ".scales"@]
            &&& q.biases is Some <==> c.weights@.contains_key(prefix@ + ".biases"@)
            &&& q.biases matches Some(b) ==> b@ == c.weights@[prefix@ + ".biases"@]
            &&& q.in_features == in_features
            &&& q.group_size == c.group_size
            &&& q.bits == c.bits
        },
        r matches Outcome::Fail(e) ==> (c.weights@.contains_key(prefix@ + ".weight"@) ==> c.answers@[prefix@] == Some(e@)),
{
}

/// A projection passes exactly where it is a matrix with the rows asked for, with the columns asked
/// for unless it is quantized, with its packing accepted where it is, and with a bias that fits where
/// the family looks at one. It is a question exactly where only the engine's word is missing.
pub proof fn projection_is_held_to_its_shape(
    c: Checkpoint<'_>,
    prefix: &str,
    rows: usize,
    columns: usize,
    r: Outcome,
)
    requires call_ensures(Checkpoint::projection, (&c, prefix, rows, columns), r),
    ensures
        r is Pass <==> {
            &&& matrix(c.weights@, prefix@, rows as nat, columns as nat)
            &&& settled(c.weights@, c.answers@, prefix@)
            &&& c.style == ProjectionStyle::Plain || bias_fits(c.weights@, prefix@, rows as nat)
        },
        r is Ask <==> {
            &&& matrix(c.weights@, prefix@, rows as nat, columns as nat)
            &&& packed(c.weights@, prefix@)
            &&& !c.answers@.contains_key(prefix@)
        },
        r matches Outcome::Ask(q) ==> q.prefix@ == prefix@ && q.in_features == columns
            && q.weight@ == c.weights@[prefix@ + ".weight"@] && q.scales@ == c.weights@[prefix@ + ".scales"@],
        !c.weights@.contains_key(prefix@ + ".weight"@) ==> r@ == Verdict::Fail("Weight not found: "@ + prefix@ + ".weight"@),
{
    assert("Weight not found: "@ + (prefix@ + ".weight"@) =~= "Weight not found: "@ + prefix@ + ".weight"@);
}

/// A stack of experts passes exactly where it has three axes, a plane for every expert, the rows
/// asked for, the columns asked for unless it is quantized, and its packing accepted where it is. The
/// last axis of a quantized stack counts for nothing here.
pub proof fn stack_is_held_to_its_shape(
    c: Checkpoint<'_>,
    prefix: &str,
    n: usize,
    rows: usize,
    columns: usize,
    r: Outcome,
)
    requires call_ensures(Checkpoint::stacked, (&c, prefix, n, rows, columns), r),
    ensures
        r is Pass <==> {
            &&& stack(c.weights@, prefix@, n as nat, rows as nat, columns as nat)
            &&& settled(c.weights@, c.answers@, prefix@)
        },
        r is Ask <==> {
            &&& stack(c.weights@, prefix@, n as nat, rows as nat, columns as nat)
            &&& packed(c.weights@, prefix@)
            &&& !c.answers@.contains_key(prefix@)
        },
        r matches Outcome::Ask(q) ==> q.prefix@ == prefix@ && q.in_features == columns
            && q.weight@ == c.weights@[prefix@ + ".weight"@] && q.scales@ == c.weights@[prefix@ + ".scales"@],
        !c.weights@.contains_key(prefix@ + ".weight"@) ==> r@ == Verdict::Fail("Weight not found: "@ + prefix@ + ".weight"@),
{
    assert("Weight not found: "@ + (prefix@ + ".weight"@) =~= "Weight not found: "@ + prefix@ + ".weight"@);
}

/// A selection bias may be missing; one that is there has an entry for every expert.
pub proof fn selection_bias_is_held_to_the_experts(c: Checkpoint<'_>, key: &str, n: usize, r: Outcome)
    requires call_ensures(Checkpoint::score_bias, (&c, key, n), r),
    ensures
        r is Pass <==> (c.weights@.contains_key(key@) ==> vector(c.weights@, key@, n as nat)),
        !(r is Ask),
{
}

/// A SwiGLU block passes exactly where its gate and its up projection lead from the hidden width to
/// the intermediate one, and its down projection leads back.
pub proof fn swiglu_is_held_to_its_shapes(
    c: Checkpoint<'_>,
    prefix: &str,
    hidden: usize,
    intermediate: usize,
    r: Outcome,
)
    requires
        call_ensures(Checkpoint::mlp, (&c, prefix, hidden, intermediate), r),
    ensures
        r is Pass <==> {
            &&& matrix(c.weights@, prefix@ + ".gate_proj"@, intermediate as nat, hidden as nat)
            &&& matrix(c.weights@, prefix@ + ".up_proj"@, intermediate as nat, hidden as nat)
            &&& matrix(c.weights@, prefix@ + ".down_proj"@, hidden as nat, intermediate as nat)
            &&& settled(c.weights@, c.answers@, prefix@ + ".gate_proj"@)
            &&& settled(c.weights@, c.answers@, prefix@ + ".up_proj"@)
            &&& settled(c.weights@, c.answers@, prefix@ + ".down_proj"@)
            &&& c.style == ProjectionStyle::Plain || {
                &&& bias_fits(c.weights@, prefix@ + ".gate_proj"@, intermediate as nat)
                &&& bias_fits(c.weights@, prefix@ + ".up_proj"@, intermediate as nat)
                &&& bias_fits(c.weights@, prefix@ + ".down_proj"@, hidden as nat)
            }
        },
{
}

/// A projection as the inspection looks at it: its shape, its packing and, outside AFMoE, its bias.
pub open spec fn sound_matrix(c: CheckpointView, prefix: Seq<char>, rows: nat, columns: nat) -> bool {
    &&& matrix(c.weights, prefix, rows, columns)
    &&& settled(c.weights, c.answers, prefix)
    &&& c.style == ProjectionStyle::Plain || bias_fits(c.weights, prefix, rows)
}

/// A stack of experts as the inspection looks at it: its shape and its packing.
pub open spec fn sound_stack(c: CheckpointView, prefix: Seq<char>, n: nat, rows: nat, columns: nat) -> bool {
    stack(c.weights, prefix, n, rows, columns) && settled(c.weights, c.answers, prefix)
}

/// A SwiGLU block as the inspection looks at it.
pub open spec fn sound_swiglu(c: CheckpointView, prefix: Seq<char>, hidden: nat, intermediate: nat) -> bool {
    &&& sound_matrix(c, prefix + ".gate_proj"@, intermediate, hidden)
    &&& sound_matrix(c, prefix + ".up_proj"@, intermediate, hidden)
    &&& sound_matrix(c, prefix + ".down_proj"@, hidden, intermediate)
}

proof fn lemma_matrix(c: CheckpointView, prefix: Seq<char>, rows: nat, columns: nat)
    ensures c.projection(prefix, rows, columns) is Pass <==> sound_matrix(c, prefix, rows, columns),
{
}

proof fn lemma_stack(c: CheckpointView, prefix: Seq<char>, n: nat, rows: nat, columns: nat)
    ensures c.stacked(prefix, n, rows, columns) is Pass <==> sound_stack(c, prefix, n, rows, columns),
{
}

proof fn lemma_swiglu(c: CheckpointView, prefix: Seq<char>, hidden: nat, intermediate: nat)
    ensures c.mlp(prefix, hidden, intermediate) is Pass <==> sound_swiglu(c, prefix, hidden, intermediate),
{
    lemma_matrix(c, prefix + ".gate_proj"@, intermediate, hidden);
    lemma_matrix(c, prefix + ".up_proj"@, intermediate, hidden);
    lemma_matrix(c, prefix + ".down_proj"@, hidden, intermediate);
}

/// A width, stopping at the largest `usize`.
pub open spec fn capped(width: int) -> nat {
    if width > usize::MAX { usize::MAX as nat } else { width as nat }
}

/// The tensors of layer `i` of an AFMoE checkpoint have the shapes that the config calls for.
pub open spec fn afmoe_layer_fits(c: CheckpointView, args: afmoe::ModelArgs, i: nat) -> bool {
    let p = "model.layers."@ + dec(i);
    let a = p + ".self_attn"@;
    let m = p + ".mlp"@;
    let hidden = args.hidden_size as nat;
    let moe = args.moe_intermediate_size as nat;
    let n = args.num_experts as nat;
    let q = (args.num_attention_heads * args.head_dim) as nat;
    let kv = (args.num_key_value_heads * args.head_dim) as nat;
    &&& sound_matrix(c, a + ".q_proj"@, q, hidden)
    &&& sound_matrix(c, a + ".k_proj"@, kv, hidden)
    &&& sound_matrix(c, a + ".v_proj"@, kv, hidden)
    &&& sound_matrix(c, a + ".gate_proj"@, q, hidden)
    &&& sound_matrix(c, a + ".o_proj"@, hidden, q)
    &&& vector(c.weights, a + ".q_norm.weight"@, args.head_dim as nat)
    &&& vector(c.weights, a + ".k_norm.weight"@, args.head_dim as nat)
    &&& vector(c.weights, p + ".input_layernorm.weight"@, hidden)
    &&& vector(c.weights, p + ".post_attention_layernorm.weight"@, hidden)
    &&& vector(c.weights, p + ".pre_mlp_layernorm.weight"@, hidden)
    &&& vector(c.weights, p + ".post_mlp_layernorm.weight"@, hidden)
    &&& i < args.num_dense_layers ==> sound_swiglu(c, m, hidden, args.intermediate_size as nat)
    &&& i >= args.num_dense_layers ==> {
        &&& sound_matrix(c, m + ".router.gate"@, n, hidden)
        &&& c.weights.contains_key(m + ".expert_bias"@) ==> vector(c.weights, m + ".expert_bias"@, n)
        &&& sound_stack(c, m + ".experts.gate_proj"@, n, moe, hidden)
        &&& sound_stack(c, m + ".experts.up_proj"@, n, moe, hidden)
        &&& sound_stack(c, m + ".experts.down_proj"@, n, hidden, moe)
        &&& args.num_shared_experts > 0 ==> sound_swiglu(c, m + ".shared_experts"@, hidden, capped(args.moe_intermediate_size * args.num_shared_experts))
    }
}

proof fn lemma_afmoe_layer(c: CheckpointView, args: afmoe::ModelArgs, i: nat)
    ensures afmoe::layer_verdict(c, args, i) is Pass <==> afmoe_layer_fits(c, args, i),
{
    let p = "model.layers."@ + dec(i);
    let a = p + ".self_attn"@;
    let m = p + ".mlp"@;
    let hidden = args.hidden_size as nat;
    let moe = args.moe_intermediate_size as nat;
    let n = args.num_experts as nat;
    let q = (args.num_attention_heads * args.head_dim) as nat;
    let kv = (args.num_key_value_heads * args.head_dim) as nat;
    assert(afmoe::attention_verdict(c, args, a) is Pass <==> {
            &&& sound_matrix(c, a + ".q_proj"@, q, hidden)
            &&& sound_matrix(c, a + ".k_proj"@, kv, hidden)
            &&& sound_matrix(c, a + ".v_proj"@, kv, hidden)
            &&& sound_matrix(c, a + ".gate_proj"@, q, hidden)
            &&& sound_matrix(c, a + ".o_proj"@, hidden, q)
            &&& vector(c.weights, a + ".q_norm.weight"@, args.head_dim as nat)
            &&& vector(c.weights, a + ".k_norm.weight"@, args.head_dim as nat)
    }) by {
        lemma_matrix(c, a + ".q_proj"@, q, hidden);
        lemma_matrix(c, a + ".k_proj"@, kv, hidden);
        lemma_matrix(c, a + ".v_proj"@, kv, hidden);
        lemma_matrix(c, a + ".gate_proj"@, q, hidden);
        lemma_matrix(c, a + ".o_proj"@, hidden, q);
    }
    assert(afmoe::feed_forward_verdict(c, args, m, i) is Pass <==> {
            &&& i < args.num_dense_layers ==> sound_swiglu(c, m, hidden, args.intermediate_size as nat)
            &&& i >= args.num_dense_layers ==> {
                &&& sound_matrix(c, m + ".router.gate"@, n, hidden)
                &&& c.weights.contains_key(m + ".expert_bias"@) ==> vector(c.weights, m + ".expert_bias"@, n)
                &&& sound_stack(c, m + ".experts.gate_proj"@, n, moe, hidden)
                &&& sound_stack(c, m + ".experts.up_proj"@, n, moe, hidden)
                &&& sound_stack(c, m + ".experts.down_proj"@, n, hidden, moe)
                &&& args.num_shared_experts > 0 ==> sound_swiglu(c, m + ".shared_experts"@, hidden, capped(args.moe_intermediate_size * args.num_shared_experts))
            }
    }) by {
        lemma_swiglu(c, m, hidden, args.intermediate_size as nat);
        lemma_matrix(c, m + ".router.gate"@, n, hidden);
        lemma_stack(c, m + ".experts.gate_proj"@, n, moe, hidden);
        lemma_stack(c, m + ".experts.up_proj"@, n, moe, hidden);
        lemma_stack(c, m + ".experts.down_proj"@, n, hidden, moe);
        lemma_swiglu(c, m + ".shared_experts"@, hidden, capped(args.moe_intermediate_size * args.num_shared_experts));
    }
}

proof fn lemma_afmoe_layers(c: CheckpointView, args: afmoe::ModelArgs, i: nat)
    ensures
        afmoe::layers_verdict(c, args, i) is Pass <==> forall|j: nat|
            i <= j < args.num_hidden_layers ==> #[trigger] afmoe_layer_fits(c, args, j),
    decreases args.num_hidden_layers - i,
{
    if i < args.num_hidden_layers {
        lemma_afmoe_layer(c, args, i);
        lemma_afmoe_layers(c, args, i + 1);
        assert forall|j: nat| afmoe::layers_verdict(c, args, i) is Pass && i <= j < args.num_hidden_layers implies #[trigger] afmoe_layer_fits(c, args, j) by {
            if j > i {
                assert(i + 1 <= j);
            }
        }
    }
}

/// An AFMoE checkpoint passes exactly where every tensor has the shape that the config calls for: a
/// quantized projection or stack is held to its rank, planes and rows only, with its packing left to
/// the engine.
pub proof fn afmoe_checkpoint_passes_iff_it_fits(
    weights: WeightMap,
    args: afmoe::ModelArgs,
    answers: PackingAnswers,
    r: Outcome,
)
    requires
        args.num_attention_heads * args.head_dim <= usize::MAX,
        args.num_key_value_heads * args.head_dim <= usize::MAX,
        call_ensures(afmoe::validate_weights, (&weights, &args, &answers), r),
    ensures
        ({
            let c = CheckpointView {
                weights: weights@,
                answers: answers@,
                group_size: 0,
                bits: 0,
                style: ProjectionStyle::Plain,
            };
            r is Pass <==> {
                &&& vector(weights@, "model.norm.weight"@, args.hidden_size as nat)
                &&& settled(weights@, answers@, "model.embed_tokens"@)
                &&& args.tie_word_embeddings || sound_matrix(c, "lm_head"@, args.vocab_size as nat, args.hidden_size as nat)
                &&& forall|i: nat| i < args.num_hidden_layers ==> #[trigger] afmoe_layer_fits(c, args, i)
            }
        }),
{
    let c = afmoe::checkpoint_view(weights@, answers@, args);
    let d = CheckpointView {
        weights: weights@,
        answers: answers@,
        group_size: 0,
        bits: 0,
        style: ProjectionStyle::Plain,
    };
    lemma_matrix(c, "lm_head"@, args.vocab_size as nat, args.hidden_size as nat);
    lemma_afmoe_layers(c, args, 0);
    assert forall|i: nat|
        #![trigger afmoe_layer_fits(c, args, i)]
        #![trigger afmoe_layer_fits(d, args, i)]
        afmoe_layer_fits(c, args, i) == afmoe_layer_fits(d, args, i) by {
    }
}

/// One projection of all `n` experts: planes of a stack where one is stored, else a matrix for each.
pub open spec fn experts_fit(
    c: CheckpointView,
    m: Seq<char>,
    leaf: Seq<char>,
    n: nat,
    rows: nat,
    columns: nat,
) -> bool {
    let joined = m + ".switch_mlp."@ + leaf;
    if c.weights.contains_key(joined + ".weight"@) {
        sound_stack(c, joined, n, rows, columns)
    } else {
        forall|e: nat| e < n ==> #[trigger] expert_fits(c, m, leaf, e, rows, columns)
    }
}

/// One projection of expert `e`, stored by itself.
pub open spec fn expert_fits(c: CheckpointView, m: Seq<char>, leaf: Seq<char>, e: nat, rows: nat, columns: nat) -> bool {
    sound_matrix(c, m + ".experts."@ + dec(e) + "."@ + leaf, rows, columns)
}

/// The tensors of a sparse block have the shapes that its config calls for: the router under either
/// of its names, a selection bias with an entry per expert, every projection of every expert, and the
/// shared expert.
pub open spec fn sparse_fits(
    c: CheckpointView,
    m: Seq<char>,
    n: nat,
    hidden: nat,
    moe: nat,
    expert_bias: bool,
    shared: Option<nat>,
) -> bool {
    let converted = c.weights.contains_key(m + ".gate.gate_proj"@ + ".weight"@);
    &&& converted ==> sound_matrix(c, m + ".gate.gate_proj"@, n, hidden)
    &&& !converted ==> sound_matrix(c, m + ".gate"@, n, hidden)
    &&& expert_bias && c.weights.contains_key(m + ".gate.expert_bias"@) ==> vector(c.weights, m + ".gate.expert_bias"@, n)
    &&& experts_fit(c, m, "gate_proj"@, n, moe, hidden)
    &&& experts_fit(c, m, "up_proj"@, n, moe, hidden)
    &&& experts_fit(c, m, "down_proj"@, n, hidden, moe)
    &&& shared matches Some(w) ==> sound_swiglu(c, m + ".shared_experts"@, hidden, w)
}

proof fn lemma_expert_list(
    c: CheckpointView,
    m: Seq<char>,
    leaf: Seq<char>,
    n: nat,
    rows: nat,
    columns: nat,
    e: nat,
)
    ensures
        bailing_moe::expert_list(c, m, leaf, n, rows, columns, e) is Pass <==> forall|j: nat|
            e <= j < n ==> #[trigger] expert_fits(c, m, leaf, j, rows, columns),
    decreases n - e,
{
    if e < n {
        lemma_matrix(c, m + ".experts."@ + dec(e) + "."@ + leaf, rows, columns);
        lemma_expert_list(c, m, leaf, n, rows, columns, e + 1);
        assert(expert_fits(c, m, leaf, e, rows, columns)
            <==> c.projection(m + ".experts."@ + dec(e) + "."@ + leaf, rows, columns) is Pass);
        assert forall|j: nat|
            bailing_moe::expert_list(c, m, leaf, n, rows, columns, e) is Pass && e <= j < n implies #[trigger] expert_fits(c, m, leaf, j, rows, columns) by {
            if j > e {
                assert(e + 1 <= j);
            }
        }
    }
}

proof fn lemma_expert_leaf(c: CheckpointView, m: Seq<char>, leaf: Seq<char>, n: nat, rows: nat, columns: nat)
    ensures bailing_moe::expert_leaf(c, m, leaf, n, rows, columns) is Pass <==> experts_fit(c, m, leaf, n, rows, columns),
{
    lemma_stack(c, m + ".switch_mlp."@ + leaf, n, rows, columns);
    lemma_expert_list(c, m, leaf, n, rows, columns, 0);
}

proof fn lemma_sparse(
    c: CheckpointView,
    m: Seq<char>,
    n: nat,
    hidden: nat,
    moe: nat,
    expert_bias: bool,
    shared: Option<nat>,
)
    ensures
        bailing_moe::sparse_verdict(c, m, n, hidden, moe, expert_bias, shared) is Pass
            <==> sparse_fits(c, m, n, hidden, moe, expert_bias, shared),
{
    lemma_matrix(c, m + ".gate.gate_proj"@, n, hidden);
    lemma_matrix(c, m + ".gate"@, n, hidden);
    lemma_expert_leaf(c, m, "gate_proj"@, n, moe, hidden);
    lemma_expert_leaf(c, m, "up_proj"@, n, moe, hidden);
    lemma_expert_leaf(c, m, "down_proj"@, n, hidden, moe);
    if let Some(w) = shared {
        lemma_swiglu(c, m + ".shared_experts"@, hidden, w);
    }
}

/// What an inspection finds to fit does not depend on the packing parameters, only on what is stored
/// and what the engine said.
proof fn lemma_sparse_view(
    c: CheckpointView,
    d: CheckpointView,
    m: Seq<char>,
    n: nat,
    hidden: nat,
    moe: nat,
    expert_bias: bool,
    shared: Option<nat>,
)
    requires
        c.weights == d.weights,
        c.answers == d.answers,
        c.style == d.style,
    ensures
        sparse_fits(c, m, n, hidden, moe, expert_bias, shared) == sparse_fits(d, m, n, hidden, moe, expert_bias, shared),
{
    assert forall|leaf: Seq<char>, e: nat, rows: nat, columns: nat|
        #![trigger expert_fits(c, m, leaf, e, rows, columns)]
        #![trigger expert_fits(d, m, leaf, e, rows, columns)]
        expert_fits(c, m, leaf, e, rows, columns) == expert_fits(d, m, leaf, e, rows, columns) by {
    }
    assert(experts_fit(c, m, "gate_proj"@, n, moe, hidden) == experts_fit(d, m, "gate_proj"@, n, moe, hidden));
    assert(experts_fit(c, m, "up_proj"@, n, moe, hidden) == experts_fit(d, m, "up_proj"@, n, moe, hidden));
    assert(experts_fit(c, m, "down_proj"@, n, hidden, moe) == experts_fit(d, m, "down_proj"@, n, hidden, moe));
}

proof fn lemma_bailing_view(c: CheckpointView, d: CheckpointView, args: bailing_moe::ModelArgs, i: nat)
    requires
        c.weights == d.weights,
        c.answers == d.answers,
        c.style == d.style,
    ensures bailing_layer_fits(c, args, i) == bailing_layer_fits(d, args, i),
{
    let m = "model.layers."@ + dec(i) + ".mlp"@;
    let n = match args.num_experts {
        Some(n) => n as nat,
        None => 0,
    };
    let moe = match args.moe_intermediate_size {
        Some(w) => w as nat,
        None => args.intermediate_size as nat,
    };
    let each = match args.moe_shared_expert_intermediate_size {
        Some(w) => w as nat,
        None => moe,
    };
    let shared = if args.num_shared_experts > 0 && args.moe_router_enable_shared_expert {
        Some(capped(each * args.num_shared_experts))
    } else {
        None
    };
    lemma_sparse_view(c, d, m, n, args.hidden_size as nat, moe, args.moe_router_enable_expert_bias, shared);
}

proof fn lemma_ling_view(c: CheckpointView, d: CheckpointView, args: bailing_moe_linear::ModelArgs, i: nat)
    requires
        c.weights == d.weights,
        c.answers == d.answers,
        c.style == d.style,
    ensures ling_layer_fits(c, args, i) == ling_layer_fits(d, args, i),
{
    let m = "model.layers."@ + dec(i) + ".mlp"@;
    let n = match args.num_experts {
        Some(n) => n as nat,
        None => 0,
    };
    let moe = match args.moe_intermediate_size {
        Some(w) => w as nat,
        None => args.intermediate_size as nat,
    };
    let each = match args.moe_shared_expert_intermediate_size {
        Some(w) => w as nat,
        None => moe,
    };
    let shared = if args.num_shared_experts > 0 && args.moe_router_enable_shared_expert {
        Some(capped(each * args.num_shared_experts))
    } else {
        None
    };
    lemma_sparse_view(c, d, m, n, args.hidden_size as nat, moe, args.moe_router_enable_expert_bias, shared);
}

/// The tensors of layer `i` of a Bailing MoE checkpoint have the shapes that the config calls for.
pub open spec fn bailing_layer_fits(c: CheckpointView, args: bailing_moe::ModelArgs, i: nat) -> bool {
    let p = "model.layers."@ + dec(i);
    let a = p + ".attention"@;
    let m = p + ".mlp"@;
    let hidden = args.hidden_size as nat;
    let heads = args.num_attention_heads as nat;
    let kv = match args.num_key_value_heads {
        Some(n) => n as nat,
        None => heads,
    };
    let d = (args.hidden_size as nat / args.num_attention_heads as nat) as nat;
    let n = match args.num_experts {
        Some(n) => n as nat,
        None => 0,
    };
    let moe = match args.moe_intermediate_size {
        Some(w) => w as nat,
        None => args.intermediate_size as nat,
    };
    let each = match args.moe_shared_expert_intermediate_size {
        Some(w) => w as nat,
        None => moe,
    };
    let shared = if args.num_shared_experts > 0 && args.moe_router_enable_shared_expert {
        Some(capped(each * args.num_shared_experts))
    } else {
        None
    };
    &&& sound_matrix(c, a + ".query_key_value"@, ((heads + 2 * kv) * d) as nat, hidden)
    &&& sound_matrix(c, a + ".dense"@, hidden, (heads * d) as nat)
    &&& args.use_qk_norm ==> {
        &&& vector(c.weights, a + ".query_layernorm.weight"@, d)
        &&& vector(c.weights, a + ".key_layernorm.weight"@, d)
    }
    &&& vector(c.weights, p + ".input_layernorm.weight"@, hidden)
    &&& vector(c.weights, p + ".post_attention_layernorm.weight"@, hidden)
    &&& n > 0 && i >= args.first_k_dense_replace ==> sparse_fits(
        c,
        m,
        n,
        hidden,
        moe,
        args.moe_router_enable_expert_bias,
        shared,
    )
    &&& n == 0 || i < args.first_k_dense_replace ==> sound_swiglu(c, m, hidden, args.intermediate_size as nat)
}

proof fn lemma_bailing_layer(c: CheckpointView, args: bailing_moe::ModelArgs, i: nat)
    requires args.num_attention_heads > 0,
    ensures bailing_moe::layer_verdict(c, args, i) is Pass <==> bailing_layer_fits(c, args, i),
{
    let p = "model.layers."@ + dec(i);
    let a = p + ".attention"@;
    let m = p + ".mlp"@;
    let hidden = args.hidden_size as nat;
    let heads = args.num_attention_heads as nat;
    let kv = match args.num_key_value_heads {
        Some(n) => n as nat,
        None => heads,
    };
    let d = (args.hidden_size as nat / args.num_attention_heads as nat) as nat;
    let n = match args.num_experts {
        Some(n) => n as nat,
        None => 0,
    };
    let moe = match args.moe_intermediate_size {
        Some(w) => w as nat,
        None => args.intermediate_size as nat,
    };
    let each = match args.moe_shared_expert_intermediate_size {
        Some(w) => w as nat,
        None => moe,
    };
    let shared = if args.num_shared_experts > 0 && args.moe_router_enable_shared_expert {
        Some(capped(each * args.num_shared_experts))
    } else {
        None
    };
    assert(bailing_moe::attention_verdict(c, args, a) is Pass <==> {
        &&& sound_matrix(c, a + ".query_key_value"@, ((heads + 2 * kv) * d) as nat, hidden)
        &&& sound_matrix(c, a + ".dense"@, hidden, (heads * d) as nat)
        &&& args.use_qk_norm ==> {
            &&& vector(c.weights, a + ".query_layernorm.weight"@, d)
            &&& vector(c.weights, a + ".key_layernorm.weight"@, d)
        }
    }) by {
        lemma_matrix(c, a + ".query_key_value"@, ((heads + 2 * kv) * d) as nat, hidden);
        lemma_matrix(c, a + ".dense"@, hidden, (heads * d) as nat);
    }
    assert(bailing_moe::feed_forward_verdict(c, args, m, i) is Pass <==> {
        &&& n > 0 && i >= args.first_k_dense_replace ==> sparse_fits(
            c,
            m,
            n,
            hidden,
            moe,
            args.moe_router_enable_expert_bias,
            shared,
        )
        &&& n == 0 || i < args.first_k_dense_replace ==> sound_swiglu(c, m, hidden, args.intermediate_size as nat)
    }) by {
        lemma_swiglu(c, m, hidden, args.intermediate_size as nat);
        lemma_sparse(c, m, n, hidden, moe, args.moe_router_enable_expert_bias, shared);
    }
}

pub(crate) proof fn lemma_bailing_layers(c: CheckpointView, args: bailing_moe::ModelArgs, i: nat)
    requires args.num_attention_heads > 0,
    ensures
        bailing_moe::layers_verdict(c, args, i) is Pass <==> forall|j: nat|
            i <= j < args.num_hidden_layers ==> #[trigger] bailing_layer_fits(c, args, j),
    decreases args.num_hidden_layers - i,
{
    if i < args.num_hidden_layers {
        lemma_bailing_layer(c, args, i);
        lemma_bailing_layers(c, args, i + 1);
        assert forall|j: nat| bailing_moe::layers_verdict(c, args, i) is Pass && i <= j < args.num_hidden_layers implies #[trigger] bailing_layer_fits(c, args, j) by {
            if j > i {
                assert(i + 1 <= j);
            }
        }
    }
}

/// A Bailing MoE checkpoint passes exactly where every tensor has the shape that the config calls for: a
/// quantized projection or stack is held to its rank, planes and rows only, with its packing left to
/// the engine.
pub proof fn bailing_checkpoint_passes_iff_it_fits(
    weights: WeightMap,
    args: bailing_moe::ModelArgs,
    answers: PackingAnswers,
    r: Outcome,
)
    requires
        args.sizable(),
        call_ensures(bailing_moe::validate_weights, (&weights, &args, &answers), r),
    ensures
        ({
            let c = CheckpointView {
                weights: weights@,
                answers: answers@,
                group_size: 0,
                bits: 0,
                style: ProjectionStyle::Bailing,
            };
            r is Pass <==> {
                &&& vector(weights@, "model.norm.weight"@, args.hidden_size as nat)
                &&& settled(weights@, answers@, "model.word_embeddings"@)
                &&& args.tie_word_embeddings || sound_matrix(c, "lm_head"@, args.vocab_size as nat, args.hidden_size as nat)
                &&& forall|i: nat| i < args.num_hidden_layers ==> #[trigger] bailing_layer_fits(c, args, i)
            }
        }),
{
    let c = bailing_moe::checkpoint_view(weights@, answers@, args);
    let d = CheckpointView {
        weights: weights@,
        answers: answers@,
        group_size: 0,
        bits: 0,
        style: ProjectionStyle::Bailing,
    };
    lemma_matrix(c, "lm_head"@, args.vocab_size as nat, args.hidden_size as nat);
    lemma_bailing_layers(c, args, 0);
    assert forall|i: nat|
        #![trigger bailing_layer_fits(c, args, i)]
        #![trigger bailing_layer_fits(d, args, i)]
        bailing_layer_fits(c, args, i) == bailing_layer_fits(d, args, i) by {
        lemma_bailing_view(c, d, args, i);
    }
}

/// The tensors of layer `i` of a Ling linear MoE checkpoint have the shapes that the config calls for.
pub open spec fn ling_layer_fits(c: CheckpointView, args: bailing_moe_linear::ModelArgs, i: nat) -> bool {
    let p = "model.layers."@ + dec(i);
    let a = p + ".attention"@;
    let m = p + ".mlp"@;
    let hidden = args.hidden_size as nat;
    let heads = args.num_attention_heads as nat;
    let kv = match args.num_key_value_heads {
        Some(n) => n as nat,
        None => heads,
    };
    let l = (args.hidden_size as nat / args.num_attention_heads as nat) as nat;
    let d = match args.head_dim {
        Some(d) => d as nat,
        None => l,
    };
    let g = args.layer_group_size as int;
    let global = g == 0 || (i as int + 1) % g == 0 || i >= args.num_hidden_layers as int / g * g;
    let n = match args.num_experts {
        Some(n) => n as nat,
        None => 0,
    };
    let moe = match args.moe_intermediate_size {
        Some(w) => w as nat,
        None => args.intermediate_size as nat,
    };
    let each = match args.moe_shared_expert_intermediate_size {
        Some(w) => w as nat,
        None => moe,
    };
    let shared = if args.num_shared_experts > 0 && args.moe_router_enable_shared_expert {
        Some(capped(each * args.num_shared_experts))
    } else {
        None
    };
    &&& global ==> {
        &&& sound_matrix(c, a + ".query_key_value"@, ((heads + 2 * kv) * d) as nat, hidden)
        &&& sound_matrix(c, a + ".dense"@, hidden, (heads * d) as nat)
    }
    &&& !global ==> {
        &&& sound_matrix(c, a + ".query_key_value"@, (3 * (heads * l)) as nat, hidden)
        &&& sound_matrix(c, a + ".dense"@, hidden, (heads * l) as nat)
        &&& sound_matrix(c, a + ".g_proj"@, (heads * l) as nat, hidden)
        &&& vector(c.weights, a + ".g_norm.weight"@, (heads * l) as nat)
    }
    &&& args.use_qk_norm ==> {
        &&& vector(c.weights, a + ".query_layernorm.weight"@, if global { d } else { l })
        &&& vector(c.weights, a + ".key_layernorm.weight"@, if global { d } else { l })
    }
    &&& vector(c.weights, p + ".input_layernorm.weight"@, hidden)
    &&& vector(c.weights, p + ".post_attention_layernorm.weight"@, hidden)
    &&& n > 0 && i >= args.first_k_dense_replace ==> sparse_fits(
        c,
        m,
        n,
        hidden,
        moe,
        args.moe_router_enable_expert_bias,
        shared,
    )
    &&& n == 0 || i < args.first_k_dense_replace ==> sound_swiglu(c, m, hidden, args.intermediate_size as nat)
}

proof fn lemma_ling_layer(c: CheckpointView, args: bailing_moe_linear::ModelArgs, i: nat)
    requires args.num_attention_heads > 0,
    ensures bailing_moe_linear::layer_verdict(c, args, i) is Pass <==> ling_layer_fits(c, args, i),
{
    let p = "model.layers."@ + dec(i);
    let a = p + ".attention"@;
    let m = p + ".mlp"@;
    let hidden = args.hidden_size as nat;
    let heads = args.num_attention_heads as nat;
    let kv = match args.num_key_value_heads {
        Some(n) => n as nat,
        None => heads,
    };
    let l = (args.hidden_size as nat / args.num_attention_heads as nat) as nat;
    let d = match args.head_dim {
        Some(d) => d as nat,
        None => l,
    };
    let g = args.layer_group_size as int;
    let global = g == 0 || (i as int + 1) % g == 0 || i >= args.num_hidden_layers as int / g * g;
    let n = match args.num_experts {
        Some(n) => n as nat,
        None => 0,
    };
    let moe = match args.moe_intermediate_size {
        Some(w) => w as nat,
        None => args.intermediate_size as nat,
    };
    let each = match args.moe_shared_expert_intermediate_size {
        Some(w) => w as nat,
        None => moe,
    };
    let shared = if args.num_shared_experts > 0 && args.moe_router_enable_shared_expert {
        Some(capped(each * args.num_shared_experts))
    } else {
        None
    };
    assert(bailing_moe_linear::attention_verdict(c, args, a, i) is Pass <==> {
        &&& global ==> {
            &&& sound_matrix(c, a + ".query_key_value"@, ((heads + 2 * kv) * d) as nat, hidden)
            &&& sound_matrix(c, a + ".dense"@, hidden, (heads * d) as nat)
        }
        &&& !global ==> {
            &&& sound_matrix(c, a + ".query_key_value"@, (3 * (heads * l)) as nat, hidden)
            &&& sound_matrix(c, a + ".dense"@, hidden, (heads * l) as nat)
            &&& sound_matrix(c, a + ".g_proj"@, (heads * l) as nat, hidden)
            &&& vector(c.weights, a + ".g_norm.weight"@, (heads * l) as nat)
        }
        &&& args.use_qk_norm ==> {
            &&& vector(c.weights, a + ".query_layernorm.weight"@, if global { d } else { l })
            &&& vector(c.weights, a + ".key_layernorm.weight"@, if global { d } else { l })
        }
    }) by {
        lemma_matrix(c, a + ".query_key_value"@, ((heads + 2 * kv) * d) as nat, hidden);
        lemma_matrix(c, a + ".dense"@, hidden, (heads * d) as nat);
        lemma_matrix(c, a + ".query_key_value"@, (3 * (heads * l)) as nat, hidden);
        lemma_matrix(c, a + ".dense"@, hidden, (heads * l) as nat);
        lemma_matrix(c, a + ".g_proj"@, (heads * l) as nat, hidden);
    }
    assert(bailing_moe_linear::feed_forward_verdict(c, args, m, i) is Pass <==> {
        &&& n > 0 && i >= args.first_k_dense_replace ==> sparse_fits(
            c,
            m,
            n,
            hidden,
            moe,
            args.moe_router_enable_expert_bias,
            shared,
        )
        &&& n == 0 || i < args.first_k_dense_replace ==> sound_swiglu(c, m, hidden, args.intermediate_size as nat)
    }) by {
        lemma_swiglu(c, m, hidden, args.intermediate_size as nat);
        lemma_sparse(c, m, n, hidden, moe, args.moe_router_enable_expert_bias, shared);
    }
}

pub(crate) proof fn lemma_ling_layers(c: CheckpointView, args: bailing_moe_linear::ModelArgs, i: nat)
    requires args.num_attention_heads > 0,
    ensures
        bailing_moe_linear::layers_verdict(c, args, i) is Pass <==> forall|j: nat|
            i <= j < args.num_hidden_layers ==> #[trigger] ling_layer_fits(c, args, j),
    decreases args.num_hidden_layers - i,
{
    if i < args.num_hidden_layers {
        lemma_ling_layer(c, args, i);
        lemma_ling_layers(c, args, i + 1);
        assert forall|j: nat| bailing_moe_linear::layers_verdict(c, args, i) is Pass && i <= j < args.num_hidden_layers implies #[trigger] ling_layer_fits(c, args, j) by {
            if j > i {
                assert(i + 1 <= j);
            }
        }
    }
}

/// A Ling linear MoE checkpoint passes exactly where every tensor has the shape that the config calls for: a
/// quantized projection or stack is held to its rank, planes and rows only, with its packing left to
/// the engine.
pub proof fn ling_checkpoint_passes_iff_it_fits(
    weights: WeightMap,
    args: bailing_moe_linear::ModelArgs,
    answers: PackingAnswers,
    r: Outcome,
)
    requires
        args.sizable(),
        call_ensures(bailing_moe_linear::validate_weights, (&weights, &args, &answers), r),
    ensures
        ({
            let c = CheckpointView {
                weights: weights@,
                answers: answers@,
                group_size: 0,
                bits: 0,
                style: ProjectionStyle::Ling,
            };
            r is Pass <==> {
                &&& vector(weights@, "model.norm.weight"@, args.hidden_size as nat)
                &&& settled(weights@, answers@, "model.word_embeddings"@)
                &&& args.tie_word_embeddings || sound_matrix(c, "lm_head"@, args.vocab_size as nat, args.hidden_size as nat)
                &&& forall|i: nat| i < args.num_hidden_layers ==> #[trigger] ling_layer_fits(c, args, i)
            }
        }),
{
    let c = bailing_moe_linear::checkpoint_view(weights@, answers@, args);
    let d = CheckpointView {
        weights: weights@,
        answers: answers@,
        group_size: 0,
        bits: 0,
        style: ProjectionStyle::Ling,
    };
    lemma_matrix(c, "lm_head"@, args.vocab_size as nat, args.hidden_size as nat);
    lemma_ling_layers(c, args, 0);
    assert forall|i: nat|
        #![trigger ling_layer_fits(c, args, i)]
        #![trigger ling_layer_fits(d, args, i)]
        ling_layer_fits(c, args, i) == ling_layer_fits(d, args, i) by {
        lemma_ling_view(c, d, args, i);
    }
}

/// The same checkpoint, with some of the engine's answers still missing.
pub open spec fn earlier(c: CheckpointView, d: CheckpointView) -> bool {
    &&& c.weights == d.weights
    &&& c.style == d.style
    &&& forall|k: Seq<char>| #[trigger] c.answers.contains_key(k) ==> d.answers.contains_key(k) && d.answers[k] == c.answers[k]
}

proof fn lemma_matrix_earlier(c: CheckpointView, d: CheckpointView, prefix: Seq<char>, rows: nat, columns: nat)
    requires earlier(c, d), d.projection(prefix, rows, columns) is Pass,
    ensures !(c.projection(prefix, rows, columns) is Fail),
{
}

proof fn lemma_stack_earlier(c: CheckpointView, d: CheckpointView, prefix: Seq<char>, n: nat, rows: nat, columns: nat)
    requires earlier(c, d), d.stacked(prefix, n, rows, columns) is Pass,
    ensures !(c.stacked(prefix, n, rows, columns) is Fail),
{
}

proof fn lemma_swiglu_earlier(c: CheckpointView, d: CheckpointView, prefix: Seq<char>, hidden: nat, intermediate: nat)
    requires earlier(c, d), d.mlp(prefix, hidden, intermediate) is Pass,
    ensures !(c.mlp(prefix, hidden, intermediate) is Fail),
{
    lemma_matrix_earlier(c, d, prefix + ".gate_proj"@, intermediate, hidden);
    lemma_matrix_earlier(c, d, prefix + ".up_proj"@, intermediate, hidden);
    lemma_matrix_earlier(c, d, prefix + ".down_proj"@, hidden, intermediate);
}

proof fn lemma_afmoe_layers_earlier(c: CheckpointView, d: CheckpointView, args: afmoe::ModelArgs, i: nat)
    requires earlier(c, d), afmoe::layers_verdict(d, args, i) is Pass,
    ensures !(afmoe::layers_verdict(c, args, i) is Fail),
    decreases args.num_hidden_layers - i,
{
    if i < args.num_hidden_layers {
        let p = layer_name(i);
        let a = p + ".self_attn"@;
        let m = p + ".mlp"@;
        let hidden = args.hidden_size as nat;
        let moe = args.moe_intermediate_size as nat;
        let n = args.num_experts as nat;
        let q = (args.num_attention_heads * args.head_dim) as nat;
        let kv = (args.num_key_value_heads * args.head_dim) as nat;
        lemma_afmoe_layers_earlier(c, d, args, i + 1);
        assert(!(afmoe::attention_verdict(c, args, a) is Fail)) by {
            lemma_matrix_earlier(c, d, a + ".q_proj"@, q, hidden);
            lemma_matrix_earlier(c, d, a + ".k_proj"@, kv, hidden);
            lemma_matrix_earlier(c, d, a + ".v_proj"@, kv, hidden);
            lemma_matrix_earlier(c, d, a + ".o_proj"@, hidden, q);
            lemma_matrix_earlier(c, d, a + ".gate_proj"@, q, hidden);
        }
        assert(!(afmoe::feed_forward_verdict(c, args, m, i) is Fail)) by {
            if i < args.num_dense_layers {
                lemma_swiglu_earlier(c, d, m, hidden, args.intermediate_size as nat);
            } else {
                lemma_matrix_earlier(c, d, m + ".router.gate"@, n, hidden);
                lemma_stack_earlier(c, d, m + ".experts.gate_proj"@, n, moe, hidden);
                lemma_stack_earlier(c, d, m + ".experts.up_proj"@, n, moe, hidden);
                lemma_stack_earlier(c, d, m + ".experts.down_proj"@, n, hidden, moe);
                if args.num_shared_experts > 0 {
                    lemma_swiglu_earlier(c, d, m + ".shared_experts"@, hidden, args.spec_shared_width());
                }
            }
        }
    }
}

/// An AFMoE checkpoint that passes once the engine has answered is never refused on the way: with
/// some of the answers still missing it passes, or is asked about.
pub proof fn afmoe_checkpoint_is_not_refused_early(
    weights: WeightMap,
    args: afmoe::ModelArgs,
    some: PackingAnswers,
    all: PackingAnswers,
    r: Outcome,
    last: Outcome,
)
    requires
        args.num_attention_heads * args.head_dim <= usize::MAX,
        args.num_key_value_heads * args.head_dim <= usize::MAX,
        call_ensures(afmoe::validate_weights, (&weights, &args, &some), r),
        call_ensures(afmoe::validate_weights, (&weights, &args, &all), last),
        forall|k: Seq<char>| #[trigger] some@.contains_key(k) ==> all@.contains_key(k) && all@[k] == some@[k],
        last is Pass,
    ensures
        !(r is Fail),
{
    let c = afmoe::checkpoint_view(weights@, some@, args);
    let d = afmoe::checkpoint_view(weights@, all@, args);
    lemma_matrix(c, "lm_head"@, args.vocab_size as nat, args.hidden_size as nat);
    if !args.tie_word_embeddings {
        lemma_matrix_earlier(c, d, "lm_head"@, args.vocab_size as nat, args.hidden_size as nat);
    }
    lemma_afmoe_layers_earlier(c, d, args, 0);
}

proof fn lemma_expert_list_earlier(
    c: CheckpointView,
    d: CheckpointView,
    m: Seq<char>,
    leaf: Seq<char>,
    n: nat,
    rows: nat,
    columns: nat,
    e: nat,
)
    requires earlier(c, d), bailing_moe::expert_list(d, m, leaf, n, rows, columns, e) is Pass,
    ensures !(bailing_moe::expert_list(c, m, leaf, n, rows, columns, e) is Fail),
    decreases n - e,
{
    if e < n {
        lemma_matrix_earlier(c, d, m + ".experts."@ + dec(e) + "."@ + leaf, rows, columns);
        lemma_expert_list_earlier(c, d, m, leaf, n, rows, columns, e + 1);
    }
}

proof fn lemma_expert_leaf_earlier(
    c: CheckpointView,
    d: CheckpointView,
    m: Seq<char>,
    leaf: Seq<char>,
    n: nat,
    rows: nat,
    columns: nat,
)
    requires earlier(c, d), bailing_moe::expert_leaf(d, m, leaf, n, rows, columns) is Pass,
    ensures !(bailing_moe::expert_leaf(c, m, leaf, n, rows, columns) is Fail),
{
    if d.weights.contains_key(m + ".switch_mlp."@ + leaf + ".weight"@) {
        lemma_stack_earlier(c, d, m + ".switch_mlp."@ + leaf, n, rows, columns);
    } else {
        lemma_expert_list_earlier(c, d, m, leaf, n, rows, columns, 0);
    }
}

proof fn lemma_sparse_earlier(
    c: CheckpointView,
    d: CheckpointView,
    m: Seq<char>,
    n: nat,
    hidden: nat,
    moe: nat,
    expert_bias: bool,
    shared: Option<nat>,
)
    requires earlier(c, d), bailing_moe::sparse_verdict(d, m, n, hidden, moe, expert_bias, shared) is Pass,
    ensures !(bailing_moe::sparse_verdict(c, m, n, hidden, moe, expert_bias, shared) is Fail),
{
    if let Ok(router) = bailing_moe::router_key(d.weights, m) {
        lemma_matrix_earlier(c, d, router, n, hidden);
        lemma_expert_leaf_earlier(c, d, m, "gate_proj"@, n, moe, hidden);
        lemma_expert_leaf_earlier(c, d, m, "up_proj"@, n, moe, hidden);
        lemma_expert_leaf_earlier(c, d, m, "down_proj"@, n, hidden, moe);
        if let Some(w) = shared {
            lemma_swiglu_earlier(c, d, m + ".shared_experts"@, hidden, w);
        }
    }
}

proof fn lemma_bailing_layers_earlier(c: CheckpointView, d: CheckpointView, args: bailing_moe::ModelArgs, i: nat)
    requires earlier(c, d), bailing_moe::layers_verdict(d, args, i) is Pass,
    ensures !(bailing_moe::layers_verdict(c, args, i) is Fail),
    decreases args.num_hidden_layers - i,
{
    if i < args.num_hidden_layers {
        let p = layer_name(i);
        let a = p + ".attention"@;
        let m = p + ".mlp"@;
        let hidden = args.hidden_size as nat;
        lemma_bailing_layers_earlier(c, d, args, i + 1);
        assert(!(bailing_moe::attention_verdict(c, args, a) is Fail)) by {
            lemma_matrix_earlier(c, d, a + ".query_key_value"@, args.spec_qkv_out(), hidden);
            lemma_matrix_earlier(c, d, a + ".dense"@, hidden, (args.num_attention_heads * args.spec_head_dim()) as nat);
        }
        assert(!(bailing_moe::feed_forward_verdict(c, args, m, i) is Fail)) by {
            if args.sparse(i as int) {
                lemma_sparse_earlier(
                    c,
                    d,
                    m,
                    args.spec_experts(),
                    hidden,
                    args.spec_moe_width(),
                    args.moe_router_enable_expert_bias,
                    if args.spec_has_shared() { Some(args.spec_shared_width()) } else { None },
                );
            } else {
                lemma_swiglu_earlier(c, d, m, hidden, args.intermediate_size as nat);
            }
        }
    }
}

/// A Bailing MoE checkpoint that passes once the engine has answered is never refused on the way.
pub proof fn bailing_checkpoint_is_not_refused_early(
    weights: WeightMap,
    args: bailing_moe::ModelArgs,
    some: PackingAnswers,
    all: PackingAnswers,
    r: Outcome,
    last: Outcome,
)
    requires
        args.sizable(),
        call_ensures(bailing_moe::validate_weights, (&weights, &args, &some), r),
        call_ensures(bailing_moe::validate_weights, (&weights, &args, &all), last),
        forall|k: Seq<char>| #[trigger] some@.contains_key(k) ==> all@.contains_key(k) && all@[k] == some@[k],
        last is Pass,
    ensures
        !(r is Fail),
{
    let c = bailing_moe::checkpoint_view(weights@, some@, args);
    let d = bailing_moe::checkpoint_view(weights@, all@, args);
    if !args.tie_word_embeddings {
        lemma_matrix_earlier(c, d, "lm_head"@, args.vocab_size as nat, args.hidden_size as nat);
    }
    lemma_bailing_layers_earlier(c, d, args, 0);
}

proof fn lemma_ling_layers_earlier(c: CheckpointView, d: CheckpointView, args: bailing_moe_linear::ModelArgs, i: nat)
    requires earlier(c, d), bailing_moe_linear::layers_verdict(d, args, i) is Pass,
    ensures !(bailing_moe_linear::layers_verdict(c, args, i) is Fail),
    decreases args.num_hidden_layers - i,
{
    if i < args.num_hidden_layers {
        let p = layer_name(i);
        let a = p + ".attention"@;
        let m = p + ".mlp"@;
        let hidden = args.hidden_size as nat;
        let w = args.spec_linear_width();
        lemma_ling_layers_earlier(c, d, args, i + 1);
        assert(!(bailing_moe_linear::attention_verdict(c, args, a, i) is Fail)) by {
            if args.global(i as int) {
                lemma_matrix_earlier(c, d, a + ".query_key_value"@, args.spec_attention_qkv_out(), hidden);
                lemma_matrix_earlier(c, d, a + ".dense"@, hidden, (args.num_attention_heads * args.spec_head_dim()) as nat);
            } else {
                lemma_matrix_earlier(c, d, a + ".query_key_value"@, 3 * w, hidden);
                lemma_matrix_earlier(c, d, a + ".dense"@, hidden, w);
                lemma_matrix_earlier(c, d, a + ".g_proj"@, w, hidden);
            }
        }
        assert(!(bailing_moe_linear::feed_forward_verdict(c, args, m, i) is Fail)) by {
            if args.sparse(i as int) {
                lemma_sparse_earlier(
                    c,
                    d,
                    m,
                    args.spec_experts(),
                    hidden,
                    args.spec_moe_width(),
                    args.moe_router_enable_expert_bias,
                    if args.spec_has_shared() { Some(args.spec_shared_width()) } else { None },
                );
            } else {
                lemma_swiglu_earlier(c, d, m, hidden, args.intermediate_size as nat);
            }
        }
    }
}

/// A Ling linear MoE checkpoint that passes once the engine has answered is never refused on the way.
pub proof fn ling_checkpoint_is_not_refused_early(
    weights: WeightMap,
    args: bailing_moe_linear::ModelArgs,
    some: PackingAnswers,
    all: PackingAnswers,
    r: Outcome,
    last: Outcome,
)
    requires
        args.sizable(),
        call_ensures(bailing_moe_linear::validate_weights, (&weights, &args, &some), r),
        call_ensures(bailing_moe_linear::validate_weights, (&weights, &args, &all), last),
        forall|k: Seq<char>| #[trigger] some@.contains_key(k) ==> all@.contains_key(k) && all@[k] == some@[k],
        last is Pass,
    ensures
        !(r is Fail),
{
    let c = bailing_moe_linear::checkpoint_view(weights@, some@, args);
    let d = bailing_moe_linear::checkpoint_view(weights@, all@, args);
    if !args.tie_word_embeddings {
        lemma_matrix_earlier(c, d, "lm_head"@, args.vocab_size as nat, args.hidden_size as nat);
    }
    lemma_ling_layers_earlier(c, d, args, 0);
}

/// A question hands over the shapes of a quantized tensor that the engine has not judged yet, with
/// the quantization parameters of the config.
pub open spec fn asks_about(
    q: RequestView,
    w: Map<Seq<char>, Seq<i32>>,
    answers: Map<Seq<char>, Option<Seq<char>>>,
    group_size: i32,
    bits: i32,
) -> bool {
    &&& w.contains_key(q.prefix + ".scales"@) && w[q.prefix + ".scales"@] == q.scales
    &&& w.contains_key(q.prefix + ".weight"@) && w[q.prefix + ".weight"@] == q.weight
    &&& q.biases is Some <==> w.contains_key(q.prefix + ".biases"@)
    &&& q.biases matches Some(b) ==> b == w[q.prefix + ".biases"@]
    &&& !answers.contains_key(q.prefix)
    &&& q.group_size == group_size
    &&& q.bits == bits
}

/// The engine is asked about tensors that are there, as they are, under the config's own parameters.
pub proof fn questions_describe_the_tensor(
    weights: WeightMap,
    answers: PackingAnswers,
    trinity: afmoe::ModelArgs,
    bailing: bailing_moe::ModelArgs,
    ling: bailing_moe_linear::ModelArgs,
    a: Outcome,
    b: Outcome,
    l: Outcome,
)
    requires
        trinity.num_attention_heads * trinity.head_dim <= usize::MAX,
        trinity.num_key_value_heads * trinity.head_dim <= usize::MAX,
        bailing.sizable(),
        ling.sizable(),
        call_ensures(afmoe::validate_weights, (&weights, &trinity, &answers), a),
        call_ensures(bailing_moe::validate_weights, (&weights, &bailing, &answers), b),
        call_ensures(bailing_moe_linear::validate_weights, (&weights, &ling, &answers), l),
    ensures
        a matches Outcome::Ask(q) ==> asks_about(
            q@,
            weights@,
            answers@,
            match trinity.quantization { Some(p) => p.group_size, None => 64 },
            match trinity.quantization { Some(p) => p.bits, None => 4 },
        ),
        b matches Outcome::Ask(q) ==> asks_about(
            q@,
            weights@,
            answers@,
            match bailing.quantization { Some(p) => p.group_size, None => 64 },
            match bailing.quantization { Some(p) => p.bits, None => 4 },
        ),
        l matches Outcome::Ask(q) ==> asks_about(
            q@,
            weights@,
            answers@,
            match ling.quantization { Some(p) => p.group_size, None => 64 },
            match ling.quantization { Some(p) => p.bits, None => 4 },
        ),
{
    afmoe::questions_are_new(weights@, answers@, trinity);
    bailing_moe::questions_are_new(weights@, answers@, bailing);
    bailing_moe_linear::questions_are_new(weights@, answers@, ling);
}

/// A quantized embedding table that the engine has not judged is the first thing that it is asked about,
/// once the final norm is in place: its rows are as wide as the hidden states.
pub proof fn embedding_table_is_asked_about_first(
    weights: WeightMap,
    answers: PackingAnswers,
    trinity: afmoe::ModelArgs,
    bailing: bailing_moe::ModelArgs,
    ling: bailing_moe_linear::ModelArgs,
    a: Outcome,
    b: Outcome,
    l: Outcome,
)
    requires
        call_ensures(afmoe::validate_weights, (&weights, &trinity, &answers), a),
        call_ensures(bailing_moe::validate_weights, (&weights, &bailing, &answers), b),
        call_ensures(bailing_moe_linear::validate_weights, (&weights, &ling, &answers), l),
    ensures
        vector(weights@, "model.norm.weight"@, trinity.hidden_size as nat) && weights@.contains_key(
            "model.embed_tokens"@ + ".scales"@,
        ) && weights@.contains_key("model.embed_tokens"@ + ".weight"@) && !answers@.contains_key("model.embed_tokens"@)
            ==> (a matches Outcome::Ask(q) && q@.prefix == "model.embed_tokens"@ && q@.in_features == trinity.hidden_size),
        vector(weights@, "model.norm.weight"@, bailing.hidden_size as nat) && weights@.contains_key(
            "model.word_embeddings"@ + ".scales"@,
        ) && weights@.contains_key("model.word_embeddings"@ + ".weight"@) && !answers@.contains_key(
            "model.word_embeddings"@,
        ) ==> (b matches Outcome::Ask(q) && q@.prefix == "model.word_embeddings"@ && q@.in_features == bailing.hidden_size),
        vector(weights@, "model.norm.weight"@, ling.hidden_size as nat) && weights@.contains_key(
            "model.word_embeddings"@ + ".scales"@,
        ) && weights@.contains_key("model.word_embeddings"@ + ".weight"@) && !answers@.contains_key(
            "model.word_embeddings"@,
        ) ==> (l matches Outcome::Ask(q) && q@.prefix == "model.word_embeddings"@ && q@.in_features == ling.hidden_size),
{
}

/// Only a checkpoint against which nothing stands has passed.
pub proof fn passing_is_having_passed(outcome: Outcome, r: bool)
    requires
        call_ensures(Outcome::passed, (&outcome,), r),
    ensures
        r <==> !(outcome is Fail) && !(outcome is Ask),
{
}

/// An axis has an expected length exactly when it is that number, never when it is below zero.
pub proof fn axes_are_compared_as_numbers(dim: i32, expected: usize, r: bool)
    requires
        call_ensures(crate::weights::dim_eq, (dim, expected), r),
    ensures
        r <==> dim == expected,
{
}

/// The final norm is looked at before all else: where it is missing or of another length, that is what
/// is told, whatever else is wrong.
pub proof fn final_norm_is_looked_at_first(
    weights: WeightMap,
    answers: PackingAnswers,
    trinity: afmoe::ModelArgs,
    bailing: bailing_moe::ModelArgs,
    ling: bailing_moe_linear::ModelArgs,
    a: Outcome,
    b: Outcome,
    l: Outcome,
)
    requires
        call_ensures(afmoe::validate_weights, (&weights, &trinity, &answers), a),
        call_ensures(bailing_moe::validate_weights, (&weights, &bailing, &answers), b),
        call_ensures(bailing_moe_linear::validate_weights, (&weights, &ling, &answers), l),
    ensures
        ({
            let key = "model.norm.weight"@;
            let missing = "Weight not found: "@ + key;
            let there = "unexpected "@ + key + " shape "@ + shape_text(weights@[key]) + ": expected "@;
            let h = trinity.hidden_size as nat;
            let m = bailing.hidden_size as nat;
            let n = ling.hidden_size as nat;
            &&& !weights@.contains_key(key) ==> a@ == Verdict::Fail(missing) && b@ == Verdict::Fail(missing) && l@
                == Verdict::Fail(missing)
            &&& weights@.contains_key(key) && !vector(weights@, key, h) ==> a@ == Verdict::Fail(there + "["@ + dec(h) + "]"@)
            &&& weights@.contains_key(key) && !vector(weights@, key, m) ==> b@ == Verdict::Fail(there + "["@ + dec(m) + "]"@)
            &&& weights@.contains_key(key) && !vector(weights@, key, n) ==> l@ == Verdict::Fail(there + "["@ + dec(n) + "]"@)
        }),
{
}

/// The packing of the embedding table is settled before any projection is looked at: one that the engine
/// turned down is told in the engine's own words.
pub proof fn embedding_refusals_are_told(
    weights: WeightMap,
    answers: PackingAnswers,
    trinity: afmoe::ModelArgs,
    bailing: bailing_moe::ModelArgs,
    ling: bailing_moe_linear::ModelArgs,
    a: Outcome,
    b: Outcome,
    l: Outcome,
)
    requires
        call_ensures(afmoe::validate_weights, (&weights, &trinity, &answers), a),
        call_ensures(bailing_moe::validate_weights, (&weights, &bailing, &answers), b),
        call_ensures(bailing_moe_linear::validate_weights, (&weights, &ling, &answers), l),
    ensures
        ({
            let e = "model.embed_tokens"@;
            let w = "model.word_embeddings"@;
            let refused = |p: Seq<char>| packed(weights@, p) && weights@.contains_key(p + ".weight"@) && answers@.contains_key(p)
                && answers@[p] is Some;
            &&& vector(weights@, "model.norm.weight"@, trinity.hidden_size as nat) && refused(e) ==> a@ == Verdict::Fail(
                answers@[e]->0,
            )
            &&& vector(weights@, "model.norm.weight"@, bailing.hidden_size as nat) && refused(w) ==> b@ == Verdict::Fail(
                answers@[w]->0,
            )
            &&& vector(weights@, "model.norm.weight"@, ling.hidden_size as nat) && refused(w) ==> l@ == Verdict::Fail(
                answers@[w]->0,
            )
        }),
{
}

} // verus!
