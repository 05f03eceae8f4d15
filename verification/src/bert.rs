//! BERT and XLM-RoBERTa encoder (`model_type: bert` / `xlm-roberta`).
//!
//! Both families are the same post-LayerNorm encoder over absolute position embeddings; they differ
//! in how position ids are built, in a few defaults and in the weight-key prefix of a checkpoint.
use vstd::prelude::*;
use vstd::string::*;
pub use crate::bert_config::{BertArgs, BertVariant, ModelType};
use crate::limits::{told, Finding};
use crate::plan::HeadPlan;
use crate::steps::{step, StepKind, StepView, Steps};
use crate::text::{
    ascii_lowercase, dec, has_part, lower, occurs, same, shape_text, starts, text, trim, trimmed,
    without_prefix,
};
use crate::weights::{copy_shape, WeightMap};

verus! {

/// A key without the prefixes that a task-head checkpoint puts before it, however many there are.
pub open spec fn stripped(key: Seq<char>) -> Seq<char>
    decreases key.len(),
{
    proof {
        reveal_strlit("bert.");
        reveal_strlit("roberta.");
    }
    if starts(key, "bert."@) {
        stripped(key.subrange("bert."@.len() as int, key.len() as int))
    } else if starts(key, "roberta."@) {
        stripped(key.subrange("roberta."@.len() as int, key.len() as int))
    } else {
        key
    }
}

/// A stripped key carries no prefix any more, so stripping it again changes nothing.
pub proof fn stripping_leaves_no_prefix(key: Seq<char>)
    ensures
        !starts(stripped(key), "bert."@),
        !starts(stripped(key), "roberta."@),
        stripped(stripped(key)) == stripped(key),
    decreases key.len(),
{
    reveal_strlit("bert.");
    reveal_strlit("roberta.");
    if starts(key, "bert."@) {
        stripping_leaves_no_prefix(key.subrange("bert."@.len() as int, key.len() as int));
    } else if starts(key, "roberta."@) {
        stripping_leaves_no_prefix(key.subrange("roberta."@.len() as int, key.len() as int));
    }
}

/// A stripped key that no encoder reads.
pub open spec fn unread(key: Seq<char>, keep_pooler: bool) -> bool {
    ||| occurs(key, "position_ids"@)
    ||| starts(key, "cls."@)
    ||| starts(key, "lm_head."@)
    ||| !keep_pooler && starts(key, "pooler."@)
}

/// The key that a tensor is kept under, where it is kept.
pub open spec fn sanitized_key(key: Seq<char>, keep_pooler: bool) -> Option<Seq<char>> {
    if unread(stripped(key), keep_pooler) { None } else { Some(stripped(key)) }
}

/// The key that a tensor is kept under, where it is kept.
pub fn sanitize_key(key: &str, keep_pooler: bool) -> (r: Option<String>)
    ensures
        match r {
            Some(k) => sanitized_key(key@, keep_pooler) == Some(k@),
            None => sanitized_key(key@, keep_pooler) is None,
        },
{
    let mut rest: &str = key;
    let mut prefixed: bool = true;
    while prefixed
        invariant
            stripped(rest@) == stripped(key@),
            !prefixed ==> rest@ == stripped(rest@),
        decreases rest@.len(), (if prefixed { 1int } else { 0int }),
    {
        proof {
            reveal_strlit("bert.");
            reveal_strlit("roberta.");
        }
        match without_prefix(rest, "bert.") {
            Some(shorter) => {
                rest = shorter;
            },
            None => match without_prefix(rest, "roberta.") {
                Some(shorter) => {
                    rest = shorter;
                },
                None => {
                    prefixed = false;
                },
            },
        }
    }
    if has_part(rest, "position_ids") || without_prefix(rest, "cls.").is_some() || without_prefix(
        rest,
        "lm_head.",
    ).is_some() || (!keep_pooler && without_prefix(rest, "pooler.").is_some()) {
        None
    } else {
        Some(rest.to_owned())
    }
}

/// Tensor `n` of the raw checkpoint is kept under `k`.
pub open spec fn kept_as(raw: Map<Seq<char>, Seq<i32>>, keep_pooler: bool, n: Seq<char>, k: Seq<char>) -> bool {
    raw.contains_key(n) && sanitized_key(n, keep_pooler) == Some(k)
}

/// `r` is a sanitized form of a raw checkpoint: it holds a tensor under exactly the keys that some
/// raw tensor is kept under, and the tensor under each is one of those. Where two raw tensors end
/// up under one key, either may stand there.
pub open spec fn sanitized(raw: Map<Seq<char>, Seq<i32>>, keep_pooler: bool, r: Map<Seq<char>, Seq<i32>>) -> bool {
    &&& forall|n: Seq<char>, k: Seq<char>| #[trigger] kept_as(raw, keep_pooler, n, k) ==> r.contains_key(k)
    &&& forall|k: Seq<char>| #[trigger] r.contains_key(k) ==> exists|n: Seq<char>|
        kept_as(raw, keep_pooler, n, k) && r[k] == raw[n]
}

/// Strips the task-head prefixes and drops the tensors that no encoder reads: position buffers,
/// masked-LM heads, and the pooler unless a classifier head is built. Where two raw tensors end up
/// under one key, one of them is kept.
pub fn sanitize(weights: &WeightMap, keep_pooler: bool) -> (r: WeightMap)
    requires weights.wf(),
    ensures
        r.wf(),
        sanitized(weights@, keep_pooler, r@),
{
    let mut r: WeightMap = WeightMap::new();
    let mut i: usize = 0;
    while i < weights.slot_count()
        invariant
            i <= weights.slots(),
            r.wf(),
            forall|k: Seq<char>| #[trigger] r@.contains_key(k) ==> exists|n: Seq<char>|
                kept_as(weights@, keep_pooler, n, k) && r@[k] == weights@[n],
            forall|j: int, k: Seq<char>|
                0 <= j < i && kept_as(weights@, keep_pooler, #[trigger] weights.slot(j), k) ==> #[trigger] r@.contains_key(k),
        decreases weights.slots() - i,
    {
        let name: &str = weights.slot_name(i);
        let ghost before = r@;
        match weights.get(name) {
            Some(shape) => {
                match sanitize_key(name, keep_pooler) {
                    Some(key) => {
                        let ghost k0 = key@;
                        r.insert(key, copy_shape(shape));
                        proof {
                            assert forall|k: Seq<char>| #[trigger] r@.contains_key(k) implies exists|n: Seq<char>|
                                kept_as(weights@, keep_pooler, n, k) && r@[k] == weights@[n] by {
                                if k == k0 {
                                    assert(kept_as(weights@, keep_pooler, name@, k));
                                } else {
                                    assert(before.contains_key(k));
                                }
                            }
                            assert forall|j: int, k: Seq<char>|
                                0 <= j < i + 1 && kept_as(weights@, keep_pooler, #[trigger] weights.slot(j), k)
                                implies #[trigger] r@.contains_key(k) by {
                                if j < i {
                                    assert(before.contains_key(k));
                                }
                            }
                        }
                    },
                    None => {},
                }
            },
            None => {},
        }
        i = i + 1;
    }
    proof {
        assert forall|n: Seq<char>, k: Seq<char>| #[trigger] kept_as(weights@, keep_pooler, n, k) implies r@.contains_key(k) by {
            weights.lemma_listed(n);
            let j = choose|j: int| 0 <= j < weights.slots() && #[trigger] weights.slot(j) == n;
            assert(kept_as(weights@, keep_pooler, weights.slot(j), k));
        }
    }
    r
}

/// Sanitizing a sanitized checkpoint changes nothing.
pub proof fn sanitizing_twice_is_sanitizing_once(
    raw: Map<Seq<char>, Seq<i32>>,
    keep_pooler: bool,
    once: Map<Seq<char>, Seq<i32>>,
    twice: Map<Seq<char>, Seq<i32>>,
)
    requires
        sanitized(raw, keep_pooler, once),
        sanitized(once, keep_pooler, twice),
    ensures
        twice == once,
{
    assert forall|k: Seq<char>| #[trigger] once.contains_key(k) implies sanitized_key(k, keep_pooler) == Some(k) by {
        let n = choose|n: Seq<char>| kept_as(raw, keep_pooler, n, k) && once[k] == raw[n];
        stripping_leaves_no_prefix(n);
    }
    assert forall|k: Seq<char>| #[trigger] once.contains_key(k) <==> #[trigger] twice.contains_key(k) by {
        if once.contains_key(k) {
            assert(kept_as(once, keep_pooler, k, k));
        }
        if twice.contains_key(k) {
            let n = choose|n: Seq<char>| kept_as(once, keep_pooler, n, k) && twice[k] == once[n];
            assert(once.contains_key(n));
        }
    }
    assert forall|k: Seq<char>| #[trigger] twice.contains_key(k) implies twice[k] == once[k] by {
        let n = choose|n: Seq<char>| kept_as(once, keep_pooler, n, k) && twice[k] == once[n];
        assert(once.contains_key(n));
    }
    assert(twice =~= once);
}

/// Keeping the pooler only adds pooler tensors.
pub proof fn pooler_flag_only_guards_the_pooler(key: Seq<char>)
    ensures
        sanitized_key(key, false) is Some ==> sanitized_key(key, true) == sanitized_key(key, false),
        sanitized_key(key, true) is Some && sanitized_key(key, false) is None ==> starts(stripped(key), "pooler."@),
{
}

/// The load steps of a LayerNorm: its weight, without which the load ends, and its bias where one is
/// stored.
pub open spec fn layer_norm_steps(s: Seq<StepView>, weights: Map<Seq<char>, Seq<i32>>, prefix: Seq<char>) -> Seq<StepView> {
    let weight = prefix + ".weight"@;
    let bias = prefix + ".bias"@;
    let s = if weights.contains_key(weight) {
        step(s, StepKind::Tensor, weight)
    } else {
        step(s, StepKind::Refuse, "bert weight not found: "@ + weight)
    };
    if weights.contains_key(bias) { step(s, StepKind::Tensor, bias) } else { s }
}

/// Adds the load steps of a LayerNorm.
pub fn load_layer_norm(weights: &WeightMap, prefix: &str, steps: &mut Steps)
    ensures final(steps)@ == layer_norm_steps(old(steps)@, weights@, prefix@),
{
    let weight: String = text(prefix).lit(".weight").done();
    let bias: String = text(prefix).lit(".bias").done();
    if weights.contains_key(weight.as_str()) {
        steps.push(StepKind::Tensor, weight);
    } else {
        steps.push(StepKind::Refuse, text("bert weight not found: ").lit(weight.as_str()).done());
    }
    if weights.contains_key(bias.as_str()) {
        steps.push(StepKind::Tensor, bias);
    }
}

/// What the engine made of an encoder table or projection, with its error named after the encoder.
pub fn load_linear(loaded: Result<(), String>) -> (r: Result<(), String>)
    ensures
        told(r) == match loaded {
            Ok(_) => Ok(()),
            Err(e) => Err("bert: "@ + e@),
        },
{
    match loaded {
        Ok(_) => Ok(()),
        Err(e) => Err(text("bert: ").lit(e.as_str()).done()),
    }
}

/// Real tokens among the first `n` of a row.
pub open spec fn real_tokens(row: Seq<i32>, pad: i32, n: int) -> int
    decreases n,
{
    if n <= 0 { 0 } else { real_tokens(row, pad, n - 1) + (if row[n - 1] != pad { 1int } else { 0int }) }
}

/// The position of token `i` of a row: `pad` for padding, else `pad` plus its number among the real
/// tokens, from one.
pub open spec fn position_of(row: Seq<i32>, pad: i32, i: int) -> int {
    if row[i] != pad { pad + real_tokens(row, pad, i + 1) } else { pad as int }
}

/// XLM-RoBERTa position ids of one row.
pub fn row_position_ids(row: &Vec<i32>, pad_token_id: i32) -> (r: Vec<i32>)
    requires
        row@.len() <= i32::MAX,
        pad_token_id + row@.len() <= i32::MAX,
    ensures
        r@.len() == row@.len(),
        forall|i: int| 0 <= i < row@.len() ==> #[trigger] r@[i] == position_of(row@, pad_token_id, i),
{
    let mut r: Vec<i32> = Vec::new();
    let mut running: i32 = 0;
    let mut i: usize = 0;
    while i < row.len()
        invariant
            i <= row@.len() <= i32::MAX,
            pad_token_id + row@.len() <= i32::MAX,
            r@.len() == i,
            0 <= running <= i,
            running == real_tokens(row@, pad_token_id, i as int),
            forall|j: int| 0 <= j < i ==> #[trigger] r@[j] == position_of(row@, pad_token_id, j),
        decreases row@.len() - i,
    {
        if row[i] != pad_token_id {
            running = running + 1;
            r.push(pad_token_id + running);
        } else {
            r.push(pad_token_id);
        }
        i = i + 1;
    }
    r
}

/// XLM-RoBERTa position ids of a batch, row by row: they start at `pad_token_id + 1` for the first
/// real token and stay at `pad_token_id` on padding.
pub fn xlm_roberta_position_ids(input_ids: &Vec<Vec<i32>>, pad_token_id: i32) -> (r: Vec<Vec<i32>>)
    requires
        forall|b: int| 0 <= b < input_ids@.len() ==> pad_token_id + (#[trigger] input_ids@[b])@.len() <= i32::MAX,
        forall|b: int| 0 <= b < input_ids@.len() ==> (#[trigger] input_ids@[b])@.len() <= i32::MAX,
    ensures
        r@.len() == input_ids@.len(),
        forall|b: int| 0 <= b < r@.len() ==> (#[trigger] r@[b])@.len() == input_ids@[b]@.len(),
        forall|b: int, i: int|
            0 <= b < r@.len() && 0 <= i < input_ids@[b]@.len() ==> #[trigger] r@[b]@[i] == position_of(
                input_ids@[b]@,
                pad_token_id,
                i,
            ),
{
    let mut r: Vec<Vec<i32>> = Vec::new();
    let mut b: usize = 0;
    while b < input_ids.len()
        invariant
            b <= input_ids@.len(),
            r@.len() == b,
            forall|c: int| 0 <= c < input_ids@.len() ==> pad_token_id + (#[trigger] input_ids@[c])@.len() <= i32::MAX,
            forall|c: int| 0 <= c < input_ids@.len() ==> (#[trigger] input_ids@[c])@.len() <= i32::MAX,
            forall|c: int| 0 <= c < b ==> (#[trigger] r@[c])@.len() == input_ids@[c]@.len(),
            forall|c: int, i: int|
                0 <= c < b && 0 <= i < input_ids@[c]@.len() ==> #[trigger] r@[c]@[i] == position_of(
                    input_ids@[c]@,
                    pad_token_id,
                    i,
                ),
        decreases input_ids@.len() - b,
    {
        let row: Vec<i32> = row_position_ids(&input_ids[b], pad_token_id);
        r.push(row);
        b = b + 1;
    }
    r
}

proof fn lemma_real_tokens(row: Seq<i32>, pad: i32, n: int)
    requires 0 <= n,
    ensures 0 <= real_tokens(row, pad, n) <= n,
    decreases n,
{
    if n > 0 {
        lemma_real_tokens(row, pad, n - 1);
    }
}

proof fn lemma_real_tokens_grow(row: Seq<i32>, pad: i32, a: int, b: int)
    requires 0 <= a <= b,
    ensures real_tokens(row, pad, a) <= real_tokens(row, pad, b),
    decreases b - a,
{
    if a < b {
        lemma_real_tokens_grow(row, pad, a, b - 1);
    }
}

/// Every position of a row that the encoder admits lies inside the position table.
pub proof fn positions_stay_inside_the_table(args: BertArgs, row: Seq<i32>, i: int)
    requires
        args.variant == BertVariant::XlmRoberta,
        args.pad_token_id >= 0,
        0 <= i < row.len() <= args.spec_max_sequence_length(),
    ensures
        args.pad_token_id <= position_of(row, args.pad_token_id, i) < args.max_position_embeddings,
{
    lemma_real_tokens(row, args.pad_token_id, i + 1);
}

/// Real tokens are numbered in order: a later one has a higher position, and the first comes right
/// after the padding index.
pub proof fn real_positions_ascend(row: Seq<i32>, pad: i32, a: int, b: int)
    requires
        0 <= a < b < row.len(),
        row[a] != pad,
        row[b] != pad,
    ensures
        position_of(row, pad, a) < position_of(row, pad, b),
        (forall|j: int| 0 <= j < a ==> row[j] == pad) ==> position_of(row, pad, a) == pad + 1,
{
    lemma_real_tokens_grow(row, pad, a + 1, b);
    if forall|j: int| 0 <= j < a ==> row[j] == pad {
        lemma_no_real_tokens(row, pad, a);
    }
}

proof fn lemma_no_real_tokens(row: Seq<i32>, pad: i32, n: int)
    requires
        0 <= n,
        forall|j: int| 0 <= j < n ==> row[j] == pad,
    ensures real_tokens(row, pad, n) == 0,
    decreases n,
{
    if n > 0 {
        lemma_no_real_tokens(row, pad, n - 1);
    }
}

/// Word, position and token-type tables plus the embedding LayerNorm.
#[derive(Debug)]
pub struct BertEmbeddings {
    pub variant: BertVariant,
    pub pad_token_id: i32,
}

/// The load steps of the embedding tables.
pub open spec fn embeddings_steps(s: Seq<StepView>, weights: Map<Seq<char>, Seq<i32>>) -> Seq<StepView> {
    let s = step(s, StepKind::Embedding, "embeddings.word_embeddings"@);
    let s = step(s, StepKind::Embedding, "embeddings.position_embeddings"@);
    let s = step(s, StepKind::Embedding, "embeddings.token_type_embeddings"@);
    layer_norm_steps(s, weights, "embeddings.LayerNorm"@)
}

impl BertEmbeddings {
    /// The tables of a config, with their load steps.
    pub fn from_weights(weights: &WeightMap, args: &BertArgs, steps: &mut Steps) -> (r: Self)
        ensures
            r.variant == args.variant,
            r.pad_token_id == args.pad_token_id,
            final(steps)@ == embeddings_steps(old(steps)@, weights@),
    {
        steps.push(StepKind::Embedding, "embeddings.word_embeddings".to_owned());
        steps.push(StepKind::Embedding, "embeddings.position_embeddings".to_owned());
        steps.push(StepKind::Embedding, "embeddings.token_type_embeddings".to_owned());
        load_layer_norm(weights, "embeddings.LayerNorm", steps);
        BertEmbeddings { variant: args.variant, pad_token_id: args.pad_token_id }
    }

    /// Position ids of a batch: one row `0..length` that every BERT member shares, or a row per
    /// XLM-RoBERTa member.
    pub fn position_ids(&self, input_ids: &Vec<Vec<i32>>, length: usize) -> (r: Vec<Vec<i32>>)
        requires
            length <= i32::MAX,
            forall|b: int| 0 <= b < input_ids@.len() ==> (#[trigger] input_ids@[b])@.len() == length,
            self.pad_token_id + length <= i32::MAX,
        ensures
            self.variant == BertVariant::Bert ==> {
                &&& r@.len() == 1
                &&& r@[0]@.len() == length
                &&& forall|i: int| 0 <= i < length ==> #[trigger] r@[0]@[i] == i
            },
            self.variant == BertVariant::XlmRoberta ==> {
                &&& r@.len() == input_ids@.len()
                &&& forall|b: int| 0 <= b < r@.len() ==> (#[trigger] r@[b])@.len() == length
                &&& forall|b: int, i: int|
                    0 <= b < r@.len() && 0 <= i < length ==> #[trigger] r@[b]@[i] == position_of(
                        input_ids@[b]@,
                        self.pad_token_id,
                        i,
                    )
            },
    {
        match self.variant {
            BertVariant::Bert => {
                let mut row: Vec<i32> = Vec::new();
                let mut i: usize = 0;
                while i < length
                    invariant
                        i <= length <= i32::MAX,
                        row@.len() == i,
                        forall|j: int| 0 <= j < i ==> #[trigger] row@[j] == j,
                    decreases length - i,
                {
                    row.push(i as i32);
                    i = i + 1;
                }
                let mut r: Vec<Vec<i32>> = Vec::new();
                r.push(row);
                r
            },
            BertVariant::XlmRoberta => xlm_roberta_position_ids(input_ids, self.pad_token_id),
        }
    }
}

impl BertEmbeddings {
    /// The segment ids of a batch: those it carries, or a single zero that every token shares.
    pub fn segment_ids(&self, token_type_ids: Option<Vec<Vec<i32>>>) -> (r: Vec<Vec<i32>>)
        ensures
            match token_type_ids {
                Some(ids) => r == ids,
                None => r@.len() == 1 && r@[0]@ == seq![0i32],
            },
    {
        match token_type_ids {
            Some(ids) => ids,
            None => {
                let mut row: Vec<i32> = Vec::new();
                row.push(0);
                assert(row@ =~= seq![0i32]);
                let mut r: Vec<Vec<i32>> = Vec::new();
                r.push(row);
                r
            },
        }
    }
}

/// One post-LayerNorm encoder block.
#[derive(Debug)]
pub struct BertLayer {
    pub num_heads: i32,
}

/// The load steps of encoder block `i`.
pub open spec fn block_steps(s: Seq<StepView>, weights: Map<Seq<char>, Seq<i32>>, i: nat) -> Seq<StepView> {
    let b = "encoder.layer."@ + dec(i);
    let s = step(s, StepKind::Linear, b + ".attention.self.query"@);
    let s = step(s, StepKind::Linear, b + ".attention.self.key"@);
    let s = step(s, StepKind::Linear, b + ".attention.self.value"@);
    let s = step(s, StepKind::Linear, b + ".attention.output.dense"@);
    let s = layer_norm_steps(s, weights, b + ".attention.output.LayerNorm"@);
    let s = step(s, StepKind::Linear, b + ".intermediate.dense"@);
    let s = step(s, StepKind::Linear, b + ".output.dense"@);
    layer_norm_steps(s, weights, b + ".output.LayerNorm"@)
}

impl BertLayer {
    /// The block of a config, with its load steps.
    pub fn from_weights(weights: &WeightMap, index: usize, args: &BertArgs, steps: &mut Steps) -> (r: Self)
        ensures
            r.num_heads == args.num_attention_heads as i32,
            final(steps)@ == block_steps(old(steps)@, weights@, index as nat),
    {
        let base: String = text("encoder.layer.").num(index).done();
        let base: &str = base.as_str();
        let attn_norm: String = text(base).lit(".attention.output.LayerNorm").done();
        let out_norm: String = text(base).lit(".output.LayerNorm").done();
        steps.push(StepKind::Linear, text(base).lit(".attention.self.query").done());
        steps.push(StepKind::Linear, text(base).lit(".attention.self.key").done());
        steps.push(StepKind::Linear, text(base).lit(".attention.self.value").done());
        steps.push(StepKind::Linear, text(base).lit(".attention.output.dense").done());
        load_layer_norm(weights, attn_norm.as_str(), steps);
        steps.push(StepKind::Linear, text(base).lit(".intermediate.dense").done());
        steps.push(StepKind::Linear, text(base).lit(".output.dense").done());
        load_layer_norm(weights, out_norm.as_str(), steps);
        BertLayer { num_heads: args.num_attention_heads as i32 }
    }

    /// The head split of hidden states `[batch, length, width]`; the heads are merged back to the
    /// same width.
    pub fn forward(&self, hidden: &Vec<i32>) -> (r: HeadPlan)
        requires
            hidden@.len() >= 3,
            self.num_heads > 0,
            hidden@[2] >= 0,
        ensures
            r == (HeadPlan {
                batch: hidden@[0],
                length: hidden@[1],
                q_heads: self.num_heads,
                kv_heads: self.num_heads,
                head_dim: (hidden@[2] as int / self.num_heads as int) as i32,
                rope: None,
                width: hidden@[2],
            }),
    {
        HeadPlan {
            batch: hidden[0],
            length: hidden[1],
            q_heads: self.num_heads,
            kv_heads: self.num_heads,
            head_dim: hidden[2] / self.num_heads,
            rope: None,
            width: hidden[2],
        }
    }
}

/// Under a resolved config the head split keeps every channel: the heads times their width make the
/// hidden width.
pub proof fn head_split_keeps_every_channel(args: BertArgs, hidden: int)
    requires
        args.num_attention_heads > 0,
        args.hidden_size as nat % args.num_attention_heads as nat == 0,
        hidden == args.hidden_size,
    ensures
        args.num_attention_heads * (hidden / args.num_attention_heads as int) == hidden,
{
    vstd::arithmetic::div_mod::lemma_fundamental_div_mod(hidden, args.num_attention_heads as int);
}

/// Feed-forward activation named by `hidden_act`.
#[derive(Clone, Copy, Debug, PartialEq, Eq, Structural)]
pub enum Activation {
    /// Exact erf GELU.
    Gelu,
    /// The tanh approximation.
    GeluTanh,
    Relu,
}

/// The activation of a trimmed lower-case name.
pub open spec fn named_activation(n: Seq<char>) -> Option<Activation> {
    if n == "gelu"@ || n == "gelu_python"@ {
        Some(Activation::Gelu)
    } else if n == "gelu_new"@ || n == "gelu_fast"@ || n == "gelu_pytorch_tanh"@ {
        Some(Activation::GeluTanh)
    } else if n == "relu"@ {
        Some(Activation::Relu)
    } else {
        None
    }
}

impl Activation {
    /// The activation of a name, in any letter case and with white space around it.
    pub fn from_name(name: &str) -> (r: Result<Self, String>)
        ensures
            match r {
                Ok(a) => named_activation(lower(trim(name@))) == Some(a),
                Err(e) => {
                    &&& named_activation(lower(trim(name@))) is None
                    &&& e@ == "bert config: hidden_act `"@ + lower(trim(name@))
                        + "` is not supported; expected gelu, gelu_new / gelu_pytorch_tanh or relu"@
                },
            },
    {
        let n: String = ascii_lowercase(trimmed(name));
        let n: &str = n.as_str();
        if same(n, "gelu") || same(n, "gelu_python") {
            Ok(Activation::Gelu)
        } else if same(n, "gelu_new") || same(n, "gelu_fast") || same(n, "gelu_pytorch_tanh") {
            Ok(Activation::GeluTanh)
        } else if same(n, "relu") {
            Ok(Activation::Relu)
        } else {
            Err(
                text("bert config: hidden_act `").lit(n).lit(
                    "` is not supported; expected gelu, gelu_new / gelu_pytorch_tanh or relu",
                ).done(),
            )
        }
    }
}

/// The load steps of the first `n` encoder blocks, behind the embedding tables.
pub open spec fn encoder_steps(s: Seq<StepView>, weights: Map<Seq<char>, Seq<i32>>, n: nat) -> Seq<StepView>
    decreases n,
{
    if n == 0 {
        embeddings_steps(s, weights)
    } else {
        block_steps(encoder_steps(s, weights, (n - 1) as nat), weights, (n - 1) as nat)
    }
}

/// The shared encoder trunk: embeddings plus `num_hidden_layers` blocks.
#[derive(Debug)]
pub struct BertEncoder {
    pub embeddings: BertEmbeddings,
    pub layers: Vec<BertLayer>,
    pub activation: Activation,
    pub args: BertArgs,
}

impl BertEncoder {
    /// The trunk that a config describes.
    pub open spec fn follows(&self, args: BertArgs) -> bool {
        &&& named_activation(lower(trim(args.hidden_act@))) == Some(self.activation)
        &&& self.args == args
        &&& self.embeddings.variant == args.variant
        &&& self.embeddings.pad_token_id == args.pad_token_id
        &&& self.layers@.len() == args.num_hidden_layers
        &&& forall|i: int| 0 <= i < self.layers@.len() ==> (#[trigger] self.layers@[i]).num_heads
            == args.num_attention_heads as i32
    }

    /// The trunk of a config, with its load steps.
    pub fn from_weights(weights: &WeightMap, args: BertArgs, steps: &mut Steps) -> (r: Result<Self, String>)
        ensures
            match r {
                Ok(encoder) => {
                    &&& encoder.follows(args)
                    &&& final(steps)@ == encoder_steps(old(steps)@, weights@, args.num_hidden_layers as nat)
                },
                Err(e) => {
                    &&& named_activation(lower(trim(args.hidden_act@))) is None
                    &&& e@ == "bert config: hidden_act `"@ + lower(trim(args.hidden_act@))
                        + "` is not supported; expected gelu, gelu_new / gelu_pytorch_tanh or relu"@
                    &&& final(steps)@ == old(steps)@
                },
            },
    {
        let activation: Activation = match Activation::from_name(args.hidden_act.as_str()) {
            Ok(a) => a,
            Err(e) => {
                return Err(e);
            },
        };
        let ghost before = steps@;
        let embeddings: BertEmbeddings = BertEmbeddings::from_weights(weights, &args, steps);
        let mut layers: Vec<BertLayer> = Vec::new();
        let mut i: usize = 0;
        while i < args.num_hidden_layers
            invariant
                i <= args.num_hidden_layers,
                layers@.len() == i,
                steps@ == encoder_steps(before, weights@, i as nat),
                forall|j: int| 0 <= j < i ==> (#[trigger] layers@[j]).num_heads == args.num_attention_heads as i32,
            decreases args.num_hidden_layers - i,
        {
            let layer: BertLayer = BertLayer::from_weights(weights, i, &args, steps);
            layers.push(layer);
            i = i + 1;
        }
        Ok(BertEncoder { embeddings, layers, activation, args })
    }

    /// The resolved config of this trunk.
    pub fn args(&self) -> (r: &BertArgs)
        ensures *r == self.args,
    {
        &self.args
    }

    /// What keeps a batch of the given shape from being encoded: a shape of other than two axes, or
    /// more tokens than the position table addresses.
    pub open spec fn finding(&self, input_ids: Seq<i32>) -> Finding {
        let length = input_ids[1] as usize;
        let usable = self.args.spec_max_sequence_length();
        if input_ids.len() != 2 {
            Err("bert encoder: input_ids must be [B, L], got "@ + shape_text(input_ids))
        } else if length > usable {
            Err(
                "bert encoder: "@ + dec(length as nat) + " tokens exceed the "@ + dec(usable as nat)
                    + " positions this checkpoint's absolute position table addresses (max_position_embeddings = "@
                    + dec(self.args.max_position_embeddings as nat) + ")"@,
            )
        } else {
            Ok(())
        }
    }

    /// Whether a batch of the given shape can be encoded.
    pub fn encode(&self, input_ids: &Vec<i32>) -> (r: Result<(), String>)
        ensures told(r) == self.finding(input_ids@),
    {
        if input_ids.len() != 2 {
            return Err(text("bert encoder: input_ids must be [B, L], got ").shape(input_ids).done());
        }
        let length: usize = input_ids[1] as usize;
        let usable: usize = self.args.max_sequence_length();
        if length > usable {
            return Err(
                text("bert encoder: ").num(length).lit(" tokens exceed the ").num(usable).lit(
                    " positions this checkpoint's absolute position table addresses (max_position_embeddings = ",
                ).num(self.args.max_position_embeddings).lit(")").done(),
            );
        }
        Ok(())
    }
}

} // verus!
