//! What the encoders promise of every row of tokens, every config and every checkpoint.
use serde_json::Value;
use vstd::prelude::*;
use vstd::string::*;
use crate::bert;
use crate::bert::{Activation, BertEmbeddings, BertEncoder, BertLayer};
use crate::bert_config::{BertArgs, BertVariant, ModelType, RawBertArgs};
use crate::bert_heads;
use crate::bert_heads::{BertEmbeddingModel, BertSequenceClassifier, ClassifierHead, PoolingMode, QuantizationParams};
use crate::json::{json_members, json_str};
use crate::load_laws::{linear, table, tensor};
use crate::plan::HeadPlan;
use crate::steps::{StepKind, StepView, Steps};
use crate::text::{dec, lower, occurs, starts, trim};
use crate::weights::WeightMap;

verus! {

/// Real tokens are numbered one after the other, however many of them there are and however much
/// padding lies between them: the first has the position behind the padding's, and the next real
/// token has the next position. Padding has its own.
pub proof fn real_tokens_are_numbered_consecutively(row: Vec<i32>, pad: i32, r: Vec<i32>, a: int, b: int)
    requires
        call_ensures(bert::row_position_ids, (&row, pad), r),
        0 <= a < b < row@.len(),
        row@[a] != pad,
        row@[b] != pad,
        forall|j: int| a < j < b ==> row@[j] == pad,
    ensures
        r@.len() == row@.len(),
        r@[b] == r@[a] + 1,
{
    lemma_padding_counts_for_nothing(row@, pad, a + 1, b);
    assert(r@[a] == bert::position_of(row@, pad, a));
    assert(r@[b] == bert::position_of(row@, pad, b));
}

/// The first real token of a row stands right behind the padding's position.
pub proof fn first_real_token_follows_the_padding(row: Vec<i32>, pad: i32, r: Vec<i32>, a: int)
    requires
        call_ensures(bert::row_position_ids, (&row, pad), r),
        0 <= a < row@.len(),
        row@[a] != pad,
        forall|j: int| 0 <= j < a ==> row@[j] == pad,
    ensures
        r@[a] == pad + 1,
{
    lemma_padding_counts_for_nothing(row@, pad, 0, a);
    assert(r@[a] == bert::position_of(row@, pad, a));
}

/// Padding has the padding's position wherever it stands, and a row has a position for every token.
pub proof fn padding_stands_at_its_own_position(row: Vec<i32>, pad: i32, r: Vec<i32>, i: int)
    requires
        call_ensures(bert::row_position_ids, (&row, pad), r),
        0 <= i < row@.len(),
    ensures
        r@.len() == row@.len(),
        row@[i] == pad ==> r@[i] == pad,
        row@[i] != pad ==> r@[i] > pad,
{
    assert(r@[i] == bert::position_of(row@, pad, i));
    lemma_counts_are_counts(row@, pad, i);
}

/// A position depends on the tokens up to it only: two rows that begin alike have the same positions
/// as long as they are alike, whatever follows.
pub proof fn positions_depend_on_earlier_tokens_only(
    row: Vec<i32>,
    other: Vec<i32>,
    pad: i32,
    r: Vec<i32>,
    s: Vec<i32>,
    i: int,
)
    requires
        call_ensures(bert::row_position_ids, (&row, pad), r),
        call_ensures(bert::row_position_ids, (&other, pad), s),
        0 <= i < row@.len(),
        i < other@.len(),
        forall|j: int| 0 <= j <= i ==> row@[j] == other@[j],
    ensures
        r@[i] == s@[i],
{
    assert(r@[i] == bert::position_of(row@, pad, i));
    assert(s@[i] == bert::position_of(other@, pad, i));
    lemma_equal_starts_count_alike(row@, other@, pad, i + 1);
}

/// Padding in front of a row moves no real token: it has the position that it has without.
pub proof fn leading_padding_moves_no_token(row: Vec<i32>, padded: Vec<i32>, pad: i32, r: Vec<i32>, s: Vec<i32>, n: int, i: int)
    requires
        call_ensures(bert::row_position_ids, (&row, pad), r),
        call_ensures(bert::row_position_ids, (&padded, pad), s),
        n >= 0,
        padded@.len() == n + row@.len(),
        forall|j: int| 0 <= j < n ==> padded@[j] == pad,
        forall|j: int| 0 <= j < row@.len() ==> #[trigger] padded@[n + j] == row@[j],
        0 <= i < row@.len(),
    ensures
        s@[n + i] == r@[i],
{
    assert(r@[i] == bert::position_of(row@, pad, i));
    assert(s@[n + i] == bert::position_of(padded@, pad, n + i));
    assert(padded@[n + i] == row@[i]);
    lemma_padded_counts(row@, padded@, pad, n, i + 1);
}

proof fn lemma_padded_counts(row: Seq<i32>, padded: Seq<i32>, pad: i32, n: int, k: int)
    requires
        n >= 0,
        0 <= k <= row.len(),
        padded.len() == n + row.len(),
        forall|j: int| 0 <= j < n ==> padded[j] == pad,
        forall|j: int| 0 <= j < row.len() ==> #[trigger] padded[n + j] == row[j],
    ensures
        bert::real_tokens(padded, pad, n + k) == bert::real_tokens(row, pad, k),
    decreases k,
{
    if k == 0 {
        lemma_padding_counts_for_nothing(padded, pad, 0, n);
    } else {
        lemma_padded_counts(row, padded, pad, n, k - 1);
        assert(padded[n + (k - 1)] == row[k - 1]);
    }
}

proof fn lemma_padding_counts_for_nothing(row: Seq<i32>, pad: i32, a: int, b: int)
    requires
        0 <= a <= b,
        forall|j: int| a <= j < b ==> row[j] == pad,
    ensures
        bert::real_tokens(row, pad, b) == bert::real_tokens(row, pad, a),
    decreases b - a,
{
    if a < b {
        lemma_padding_counts_for_nothing(row, pad, a, b - 1);
    }
}

proof fn lemma_counts_are_counts(row: Seq<i32>, pad: i32, n: int)
    requires 0 <= n,
    ensures 0 <= bert::real_tokens(row, pad, n) <= n,
    decreases n,
{
    if n > 0 {
        lemma_counts_are_counts(row, pad, n - 1);
    }
}

proof fn lemma_equal_starts_count_alike(row: Seq<i32>, other: Seq<i32>, pad: i32, n: int)
    requires
        forall|j: int| 0 <= j < n ==> row[j] == other[j],
    ensures
        bert::real_tokens(row, pad, n) == bert::real_tokens(other, pad, n),
    decreases n,
{
    if n > 0 {
        lemma_equal_starts_count_alike(row, other, pad, n - 1);
    }
}

/// Each member of a batch has the positions that it has alone.
pub proof fn rows_of_a_batch_are_numbered_alone(ids: Vec<Vec<i32>>, pad: i32, r: Vec<Vec<i32>>, b: int, alone: Vec<i32>)
    requires
        call_ensures(bert::xlm_roberta_position_ids, (&ids, pad), r),
        0 <= b < ids@.len(),
        call_ensures(bert::row_position_ids, (&ids@[b], pad), alone),
    ensures
        r@.len() == ids@.len(),
        r@[b]@ == alone@,
{
    assert(r@[b]@.len() == ids@[b]@.len());
    assert forall|i: int| 0 <= i < alone@.len() implies r@[b]@[i] == alone@[i] by {
        assert(r@[b]@[i] == bert::position_of(ids@[b]@, pad, i));
    }
    assert(r@[b]@ =~= alone@);
}

/// A BERT batch has one row of positions, which counts the tokens from zero whatever they are. An
/// XLM-RoBERTa batch has a row for each member, numbered behind the padding.
pub proof fn position_rows_follow_the_dialect(
    e: BertEmbeddings,
    ids: Vec<Vec<i32>>,
    length: usize,
    r: Vec<Vec<i32>>,
    b: int,
    alone: Vec<i32>,
)
    requires
        call_ensures(BertEmbeddings::position_ids, (&e, &ids, length), r),
        0 <= b < ids@.len(),
        ids@[b]@.len() == length,
        call_ensures(bert::row_position_ids, (&ids@[b], e.pad_token_id), alone),
    ensures
        e.variant == BertVariant::Bert ==> r@.len() == 1 && r@[0]@.len() == length && forall|i: int|
            0 <= i < length ==> #[trigger] r@[0]@[i] == i,
        e.variant == BertVariant::XlmRoberta ==> r@.len() == ids@.len() && r@[b]@ == alone@,
{
    if e.variant == BertVariant::XlmRoberta {
        assert(r@[b]@.len() == length);
        assert forall|i: int| 0 <= i < alone@.len() implies r@[b]@[i] == alone@[i] by {
            assert(r@[b]@[i] == bert::position_of(ids@[b]@, e.pad_token_id, i));
        }
        assert(r@[b]@ =~= alone@);
    }
}

/// Given segments are used as they are; without any, every token is of segment zero.
pub proof fn segments_default_to_zero(e: BertEmbeddings, given: Option<Vec<Vec<i32>>>, r: Vec<Vec<i32>>)
    requires
        call_ensures(BertEmbeddings::segment_ids, (&e, given), r),
    ensures
        given matches Some(ids) ==> r@ == ids@,
        given is None ==> r@.len() == 1 && r@[0]@.len() == 1 && r@[0]@[0] == 0,
{
}

/// The sequence limit is exact: rows of `n` real tokens have all their positions inside the table
/// exactly as long as `n` does not exceed it.
pub proof fn sequence_limit_is_exact(args: BertArgs, usable: usize, row: Vec<i32>, r: Vec<i32>)
    requires
        call_ensures(BertArgs::max_sequence_length, (&args,), usable),
        args.variant == BertVariant::XlmRoberta,
        args.pad_token_id >= 0,
        call_ensures(bert::row_position_ids, (&row, args.pad_token_id), r),
        row@.len() > 0,
        forall|j: int| 0 <= j < row@.len() ==> row@[j] != args.pad_token_id,
    ensures
        (forall|i: int| 0 <= i < row@.len() ==> 0 <= #[trigger] r@[i] < args.max_position_embeddings) <==> row@.len()
            <= usable,
{
    assert forall|i: int| 0 <= i < row@.len() implies #[trigger] r@[i] == args.pad_token_id + i + 1 by {
        assert(r@[i] == bert::position_of(row@, args.pad_token_id, i));
        lemma_real_rows_count_all(row@, args.pad_token_id, i + 1);
    }
    assert(r@[row@.len() - 1] == args.pad_token_id + row@.len());
}

proof fn lemma_real_rows_count_all(row: Seq<i32>, pad: i32, n: int)
    requires
        0 <= n <= row.len(),
        forall|j: int| 0 <= j < row.len() ==> row[j] != pad,
    ensures
        bert::real_tokens(row, pad, n) == n,
    decreases n,
{
    if n > 0 {
        lemma_real_rows_count_all(row, pad, n - 1);
    }
}

/// A BERT table addresses as many tokens as it has rows; an XLM-RoBERTa table as many as it has behind
/// the padding's row.
pub proof fn sequence_limit_follows_the_table(args: BertArgs, usable: usize)
    requires
        call_ensures(BertArgs::max_sequence_length, (&args,), usable),
    ensures
        args.variant == BertVariant::Bert ==> usable == args.max_position_embeddings,
        args.variant == BertVariant::XlmRoberta ==> {
            let behind = (if args.pad_token_id < 0 { 0 } else { args.pad_token_id as int }) + 1;
            &&& args.max_position_embeddings >= behind ==> usable + behind == args.max_position_embeddings
            &&& args.max_position_embeddings < behind ==> usable == 0
        },
{
}

/// A batch is encoded exactly when it has two axes and no more tokens than the position table
/// addresses; an embedding model takes no image besides, and a classifier answers with a row of
/// logits for each member.
pub proof fn batches_are_admitted_iff_they_fit(
    model: BertEmbeddingModel,
    classifier: BertSequenceClassifier,
    shape: Vec<i32>,
    images: Option<usize>,
    usable: usize,
    other: usize,
    encoded: Result<(), String>,
    embedded: Result<(), String>,
    scored: Result<(i32, usize), String>,
)
    requires
        shape@.len() == 2 ==> shape@[1] >= 0,
        call_ensures(BertArgs::max_sequence_length, (&model.encoder.args,), usable),
        call_ensures(BertArgs::max_sequence_length, (&classifier.encoder.args,), other),
        call_ensures(BertEncoder::encode, (&model.encoder, &shape), encoded),
        call_ensures(BertEmbeddingModel::embed, (&model, &shape, images), embedded),
        call_ensures(BertSequenceClassifier::logits, (&classifier, &shape), scored),
    ensures
        encoded is Ok <==> shape@.len() == 2 && shape@[1] <= usable,
        embedded is Ok <==> encoded is Ok && (images is None || images == Some(0usize)),
        scored is Ok <==> shape@.len() == 2 && shape@[1] <= other,
        scored matches Ok(s) ==> s.0 == shape@[0] && s.1 == classifier.head.num_labels,
{
}

/// A config is taken exactly when its heads share out its width evenly. What it declares is kept; what
/// it leaves out is that of its dialect.
pub proof fn config_resolves_to_what_it_declares(raw: RawBertArgs, variant: BertVariant, r: Result<BertArgs, String>)
    requires
        call_ensures(BertArgs::from_config, (&raw, variant), r),
    ensures
        r is Ok <==> raw.hidden_size > 0 && raw.num_attention_heads > 0 && raw.hidden_size as int
            % raw.num_attention_heads as int == 0,
        r matches Ok(args) ==> {
            &&& args.variant == variant
            &&& args.vocab_size == raw.vocab_size
            &&& args.hidden_size == raw.hidden_size
            &&& args.num_hidden_layers == raw.num_hidden_layers
            &&& args.num_attention_heads == raw.num_attention_heads
            &&& args.intermediate_size == raw.intermediate_size
            &&& args.max_position_embeddings == raw.max_position_embeddings
            &&& raw.type_vocab_size matches Some(n) ==> args.type_vocab_size == n
            &&& raw.type_vocab_size is None ==> args.type_vocab_size == (if variant == BertVariant::Bert { 2 } else { 1int })
            &&& raw.layer_norm_eps matches Some(e) ==> args.layer_norm_eps.bits == e.bits
            &&& raw.layer_norm_eps is None ==> args.layer_norm_eps.bits == (if variant == BertVariant::Bert {
                0x2b8c_bcccu32
            } else {
                0x3727_c5acu32
            })
            &&& raw.pad_token_id matches Some(p) ==> args.pad_token_id == p
            &&& raw.pad_token_id is None ==> args.pad_token_id == (if variant == BertVariant::Bert { 0int } else { 1 })
            &&& raw.hidden_act matches Some(a) ==> args.hidden_act@ == a@
            &&& raw.hidden_act is None ==> args.hidden_act@ == "gelu"@
            &&& args.num_labels >= 1
            &&& raw.num_labels matches Some(n) ==> n > 0 ==> args.num_labels == n
            &&& raw.num_labels == Some(0usize) ==> args.num_labels == 1
            &&& raw.num_labels is None ==> {
                &&& raw.id2label matches Some(n) ==> n > 0 ==> args.num_labels == n
                &&& raw.id2label is None || raw.id2label == Some(0usize) ==> args.num_labels == 1
            }
        },
{
}

/// A model type is read in any letter case, and names a dialect exactly where it is one of three.
pub proof fn dialects_are_named(name: &str, r: Option<BertVariant>, none: Option<BertVariant>)
    requires
        call_ensures(BertVariant::from_name, (Some(name),), r),
        call_ensures(BertVariant::from_name, (None,), none),
    ensures
        r == Some(BertVariant::Bert) <==> lower(name@) == "bert"@,
        r == Some(BertVariant::XlmRoberta) <==> lower(name@) == "xlm-roberta"@ || lower(name@) == "xlm_roberta"@,
        none is None,
{
    reveal_strlit("bert");
    reveal_strlit("xlm-roberta");
    reveal_strlit("xlm_roberta");
    if lower(name@) == "bert"@ {
        assert(lower(name@).len() == 4);
    }
}

/// The checkpoint of another family is refused, and no other.
pub proof fn dialect_is_found_or_refused(dir: &str, name: Option<&str>, v: Option<BertVariant>, r: Result<BertVariant, String>)
    requires
        call_ensures(BertVariant::from_name, (name,), v),
        call_ensures(BertSequenceClassifier::dialect_of, (dir, name), r),
    ensures
        v matches Some(d) ==> r == Ok::<BertVariant, String>(d),
        v is None ==> r is Err,
{
}

/// The activation of a block goes by its name, in any letter case and with white space around it.
pub proof fn activations_are_named(name: &str, r: Result<Activation, String>)
    requires
        call_ensures(Activation::from_name, (name,), r),
    ensures
        ({
            let n = lower(trim(name@));
            &&& (n == "gelu"@ || n == "gelu_python"@) ==> (r matches Ok(a) && a == Activation::Gelu)
            &&& (n == "gelu_new"@ || n == "gelu_fast"@ || n == "gelu_pytorch_tanh"@) ==> (r matches Ok(a) && a
                == Activation::GeluTanh)
            &&& n == "relu"@ ==> (r matches Ok(a) && a == Activation::Relu)
            &&& r is Ok ==> n == "gelu"@ || n == "gelu_python"@ || n == "gelu_new"@ || n == "gelu_fast"@ || n
                == "gelu_pytorch_tanh"@ || n == "relu"@
        }),
{
    reveal_strlit("gelu");
    reveal_strlit("gelu_python");
    reveal_strlit("gelu_new");
    reveal_strlit("gelu_fast");
    reveal_strlit("gelu_pytorch_tanh");
    reveal_strlit("relu");
    let n = lower(trim(name@));
    if n == "relu"@ {
        assert(n[0] == 'r');
    }
    if n == "gelu"@ || n == "gelu_python"@ || n == "gelu_new"@ || n == "gelu_fast"@ || n == "gelu_pytorch_tanh"@ {
        assert(n[0] == 'g');
    }
    if n == "gelu_new"@ {
        assert(n.len() == 8);
    }
    if n == "gelu_fast"@ {
        assert(n.len() == 9);
    }
    if n == "gelu_python"@ {
        assert(n.len() == 11);
    }
    if n == "gelu_pytorch_tanh"@ {
        assert(n.len() == 17);
    }
}

/// The heads of an encoder block share out the hidden width: merged, they have it again. Nothing
/// rotates.
pub proof fn encoder_heads_share_the_width(layer: BertLayer, hidden: Vec<i32>, r: HeadPlan)
    requires
        hidden@.len() >= 3,
        layer.num_heads > 0,
        hidden@[2] >= 0,
        call_ensures(BertLayer::forward, (&layer, &hidden), r),
    ensures
        r.batch == hidden@[0],
        r.length == hidden@[1],
        r.q_heads == layer.num_heads,
        r.kv_heads == layer.num_heads,
        r.head_dim == hidden@[2] as int / layer.num_heads as int,
        hidden@[2] as int % layer.num_heads as int == 0 ==> r.q_heads * r.head_dim == hidden@[2],
        r.width == hidden@[2],
        r.rope is None,
{
    vstd::arithmetic::div_mod::lemma_fundamental_div_mod(hidden@[2] as int, layer.num_heads as int);
    vstd::arithmetic::div_mod::lemma_div_pos_is_pos(hidden@[2] as int, layer.num_heads as int);
    vstd::arithmetic::div_mod::lemma_div_is_ordered_by_denominator(hidden@[2] as int, 1, layer.num_heads as int);
}

/// A prefix makes no difference: a key is kept, under the same name, exactly where it is kept without.
pub proof fn prefixes_make_no_difference(key: &str, prefixed: &str, keep_pooler: bool, r: Option<String>, s: Option<String>)
    requires
        prefixed@ == "bert."@ + key@ || prefixed@ == "roberta."@ + key@,
        call_ensures(bert::sanitize_key, (key, keep_pooler), r),
        call_ensures(bert::sanitize_key, (prefixed, keep_pooler), s),
    ensures
        r is Some <==> s is Some,
        r matches Some(k) ==> (s matches Some(l) && l@ == k@),
{
    reveal_strlit("bert.");
    reveal_strlit("roberta.");
    if prefixed@ == "bert."@ + key@ {
        assert(prefixed@.subrange(0, 5) =~= "bert."@);
        assert(prefixed@.subrange(5, prefixed@.len() as int) =~= key@);
    } else {
        assert(prefixed@.subrange(0, 8) =~= "roberta."@);
        assert(prefixed@[0] == 'r');
        if starts(prefixed@, "bert."@) {
            assert(prefixed@.subrange(0, 5)[0] == 'b');
        }
        assert(prefixed@.subrange(8, prefixed@.len() as int) =~= key@);
    }
}

/// A key without a prefix keeps its name. It is dropped exactly where no encoder reads it: a position
/// buffer, a language-model head, and the pooler unless that is to be kept.
pub proof fn plain_keys_keep_their_names(key: &str, keep_pooler: bool, r: Option<String>)
    requires
        !starts(key@, "bert."@),
        !starts(key@, "roberta."@),
        call_ensures(bert::sanitize_key, (key, keep_pooler), r),
    ensures
        r matches Some(k) ==> k@ == key@,
        r is None <==> occurs(key@, "position_ids"@) || starts(key@, "cls."@) || starts(key@, "lm_head."@) || (!keep_pooler
            && starts(key@, "pooler."@)),
{
}

/// Sanitizing loses no tensor that is kept under a key of its own, invents none, and changes none.
pub proof fn sanitizing_keeps_every_tensor_that_is_read(
    raw: WeightMap,
    keep_pooler: bool,
    r: WeightMap,
    key: &str,
    kept: Option<String>,
)
    requires
        call_ensures(bert::sanitize, (&raw, keep_pooler), r),
        call_ensures(bert::sanitize_key, (key, keep_pooler), kept),
        raw@.contains_key(key@),
    ensures
        kept matches Some(k) ==> r@.contains_key(k@),
        kept matches Some(k) ==> (forall|n: Seq<char>|
            raw@.contains_key(n) && #[trigger] bert::sanitized_key(n, keep_pooler) == Some(k@) ==> n == key@)
            ==> r@[k@] == raw@[key@],
        forall|k: Seq<char>| #[trigger] r@.contains_key(k) ==> exists|n: Seq<char>| raw@.contains_key(n) && r@[k] == #[trigger] raw@[n],
{
    if let Some(k) = kept {
        assert(bert::kept_as(raw@, keep_pooler, key@, k@));
        assert(r@.contains_key(k@));
    }
    assert forall|k: Seq<char>| #[trigger] r@.contains_key(k) implies exists|n: Seq<char>|
        raw@.contains_key(n) && r@[k] == #[trigger] raw@[n] by {
        let n = choose|n: Seq<char>| bert::kept_as(raw@, keep_pooler, n, k) && r@[k] == raw@[n];
        assert(raw@.contains_key(n) && r@[k] == raw@[n]);
    }
}

/// What is taken of a LayerNorm under `n`: its weight, which has to be there, and its bias where that
/// is stored.
pub open spec fn norm(weights: Map<Seq<char>, Seq<i32>>, n: Seq<char>) -> Seq<StepView> {
    seq![
        if weights.contains_key(n + ".weight"@) {
            tensor(n + ".weight"@)
        } else {
            StepView { kind: StepKind::Refuse, key: "bert weight not found: "@ + (n + ".weight"@) }
        },
    ] + (if weights.contains_key(n + ".bias"@) { seq![tensor(n + ".bias"@)] } else { Seq::empty() })
}

/// The steps that encoder block `i` takes: four attention projections, the two of the feed-forward
/// block, and the norm behind each.
pub open spec fn block(weights: Map<Seq<char>, Seq<i32>>, i: nat) -> Seq<StepView> {
    let b = "encoder.layer."@ + dec(i);
    seq![
        linear(b + ".attention.self.query"@),
        linear(b + ".attention.self.key"@),
        linear(b + ".attention.self.value"@),
        linear(b + ".attention.output.dense"@),
    ] + norm(weights, b + ".attention.output.LayerNorm"@) + seq![
        linear(b + ".intermediate.dense"@),
        linear(b + ".output.dense"@),
    ] + norm(weights, b + ".output.LayerNorm"@)
}

/// The steps that the first `n` encoder blocks take, block by block.
pub open spec fn blocks(weights: Map<Seq<char>, Seq<i32>>, n: nat) -> Seq<StepView>
    decreases n,
{
    if n == 0 { Seq::empty() } else { blocks(weights, (n - 1) as nat) + block(weights, (n - 1) as nat) }
}

proof fn lemma_norm(s: Seq<StepView>, weights: Map<Seq<char>, Seq<i32>>, n: Seq<char>)
    ensures bert::layer_norm_steps(s, weights, n) == s + norm(weights, n),
{
    assert(bert::layer_norm_steps(s, weights, n) =~= s + norm(weights, n));
}

proof fn lemma_tables(s: Seq<StepView>, weights: Map<Seq<char>, Seq<i32>>)
    ensures bert::embeddings_steps(s, weights) == s + tables(weights),
{
    let three = seq![
        table("embeddings.word_embeddings"@),
        table("embeddings.position_embeddings"@),
        table("embeddings.token_type_embeddings"@),
    ];
    lemma_norm(s + three, weights, "embeddings.LayerNorm"@);
    assert(s.push(three[0]).push(three[1]).push(three[2]) =~= s + three);
    assert(s + three + norm(weights, "embeddings.LayerNorm"@) =~= s + tables(weights));
}

proof fn lemma_block(s: Seq<StepView>, weights: Map<Seq<char>, Seq<i32>>, i: nat)
    ensures bert::block_steps(s, weights, i) == s + block(weights, i),
{
    let b = "encoder.layer."@ + dec(i);
    let four = seq![
        linear(b + ".attention.self.query"@),
        linear(b + ".attention.self.key"@),
        linear(b + ".attention.self.value"@),
        linear(b + ".attention.output.dense"@),
    ];
    let two = seq![linear(b + ".intermediate.dense"@), linear(b + ".output.dense"@)];
    let first = norm(weights, b + ".attention.output.LayerNorm"@);
    let second = norm(weights, b + ".output.LayerNorm"@);
    assert(s.push(four[0]).push(four[1]).push(four[2]).push(four[3]) =~= s + four);
    lemma_norm(s + four, weights, b + ".attention.output.LayerNorm"@);
    let t = s + four + first;
    assert(t.push(two[0]).push(two[1]) =~= t + two);
    lemma_norm(t + two, weights, b + ".output.LayerNorm"@);
    assert(s + four + first + two + second =~= s + (four + first + two + second));
}

/// The steps of the three tables and of their norm.
pub open spec fn tables(weights: Map<Seq<char>, Seq<i32>>) -> Seq<StepView> {
    seq![
        table("embeddings.word_embeddings"@),
        table("embeddings.position_embeddings"@),
        table("embeddings.token_type_embeddings"@),
    ] + norm(weights, "embeddings.LayerNorm"@)
}

/// A trunk takes its three tables with their norm, then every block, each once, in order, and nothing
/// else.
pub proof fn encoder_load_is_complete(s: Seq<StepView>, weights: Map<Seq<char>, Seq<i32>>, n: nat)
    ensures
        bert::encoder_steps(s, weights, n) == s + (tables(weights) + blocks(weights, n)),
    decreases n,
{
    if n == 0 {
        lemma_tables(s, weights);
        assert(tables(weights) + blocks(weights, 0) =~= tables(weights));
    } else {
        let m = (n - 1) as nat;
        encoder_load_is_complete(s, weights, m);
        lemma_block(bert::encoder_steps(s, weights, m), weights, m);
        assert(s + (tables(weights) + blocks(weights, m)) + block(weights, m) =~= s + (tables(weights) + (blocks(
            weights,
            m,
        ) + block(weights, m))));
    }
}

/// A classifier keeps its two projections where its dialect stores them, and has as many labels as its
/// second one has rows.
pub proof fn classifier_head_follows_the_dialect(weights: Map<Seq<char>, Seq<i32>>)
    ensures
        bert_heads::dense_prefix(BertVariant::Bert) == "pooler.dense"@,
        bert_heads::dense_prefix(BertVariant::XlmRoberta) == "classifier.dense"@,
        bert_heads::projection_prefix(BertVariant::Bert) == "classifier"@,
        bert_heads::projection_prefix(BertVariant::XlmRoberta) == "classifier.out_proj"@,
        forall|p: Seq<char>|
            #![trigger bert_heads::projection_rows(weights, p)]
            weights.contains_key(p + ".weight"@) && weights[p + ".weight"@].len() > 0 && weights[p + ".weight"@][0] >= 0
                ==> bert_heads::projection_rows(weights, p) == weights[p + ".weight"@][0],
        forall|p: Seq<char>|
            #![trigger bert_heads::projection_rows(weights, p)]
            !weights.contains_key(p + ".weight"@) ==> bert_heads::projection_rows(weights, p) == 0,
{
}

/// A classifier head takes the states of the first token only: the length of the batch is gone, the
/// members and the width are not.
pub proof fn classifier_head_reads_one_token(head: ClassifierHead, hidden: Vec<i32>, r: Vec<i32>)
    requires
        call_ensures(ClassifierHead::forward, (&head, &hidden), r),
        hidden@.len() >= 3,
    ensures
        r@.len() == 2,
        r@[0] == hidden@[0],
        r@[1] == hidden@[2],
{
}

/// Only BERT batches carry segments.
pub proof fn segments_are_for_bert(m: BertEmbeddingModel, c: BertSequenceClassifier, r: bool, s: bool)
    requires
        call_ensures(BertEmbeddingModel::needs_token_type_ids, (&m,), r),
        call_ensures(BertSequenceClassifier::needs_token_type_ids, (&c,), s),
    ensures
        r <==> !(m.encoder.args.variant is XlmRoberta),
        s <==> !(c.encoder.args.variant is XlmRoberta),
{
}

/// The two encoder families have their dialects, and no other family has one.
pub proof fn families_have_their_dialects(t: ModelType, r: Option<BertVariant>)
    requires
        call_ensures(BertVariant::from_model_type, (t,), r),
    ensures
        r == Some(BertVariant::Bert) <==> t == ModelType::Bert,
        r == Some(BertVariant::XlmRoberta) <==> t == ModelType::XlmRoberta,
{
}

/// The prefix of a dialect is one that sanitizing takes off: a key under it is kept exactly as the key
/// without it.
pub proof fn dialect_prefixes_are_taken_off(
    v: BertVariant,
    prefix: &str,
    key: &str,
    prefixed: &str,
    keep_pooler: bool,
    r: Option<String>,
    s: Option<String>,
)
    requires
        call_ensures(BertVariant::weight_prefix, (&v,), prefix),
        prefixed@ == prefix@ + key@,
        call_ensures(bert::sanitize_key, (key, keep_pooler), r),
        call_ensures(bert::sanitize_key, (prefixed, keep_pooler), s),
    ensures
        prefix@ == (if v == BertVariant::Bert { "bert."@ } else { "roberta."@ }),
        r matches Some(k) ==> (s matches Some(l) && l@ == k@),
        r is None ==> s is None,
{
    prefixes_make_no_difference(key, prefixed, keep_pooler, r, s);
}

/// What the engine makes of a tensor is passed on; its errors say which part of the encoder they are
/// about.
pub proof fn engine_errors_are_passed_on(
    loaded: Result<(), String>,
    r: Result<(), String>,
    s: Result<(), String>,
)
    requires
        call_ensures(bert::load_linear, (loaded,), r),
        call_ensures(bert_heads::head_linear, (loaded,), s),
    ensures
        loaded is Ok <==> r is Ok,
        loaded is Ok <==> s is Ok,
        loaded matches Err(e) ==> (r matches Err(f) && f@ == "bert: "@ + e@),
        loaded matches Err(e) ==> (s matches Err(f) && f@ == "bert classification head: "@ + e@),
{
}

/// An embedding is as wide as the hidden states, its model admits as many tokens as its encoder, and
/// pools by the mean unless told otherwise.
pub proof fn embedding_models_speak_for_their_encoders(
    m: BertEmbeddingModel,
    dim: usize,
    limit: Option<usize>,
    usable: usize,
    pooling: PoolingMode,
)
    requires
        call_ensures(BertEmbeddingModel::embedding_dim, (&m,), dim),
        call_ensures(BertEmbeddingModel::max_sequence_length, (&m,), limit),
        call_ensures(BertArgs::max_sequence_length, (&m.encoder.args,), usable),
        call_ensures(BertEmbeddingModel::default_pooling, (&m,), pooling),
    ensures
        dim == m.encoder.args.hidden_size,
        limit == Some(usable),
        pooling == PoolingMode::Mean,
{
}

/// A classifier has as many labels as its head produces, whatever its config claims.
pub proof fn labels_are_the_heads(c: BertSequenceClassifier, n: usize)
    requires
        call_ensures(BertSequenceClassifier::num_labels, (&c,), n),
    ensures
        n == c.head.num_labels,
{
}

/// Declared quantization parameters are used as they are; without any, groups of 64 with 4 bits.
pub proof fn quantization_falls_back_to_dense(declared: Option<QuantizationParams>, r: QuantizationParams)
    requires
        call_ensures(bert_heads::quantization, (declared,), r),
    ensures
        declared matches Some(q) ==> r == q,
        declared is None ==> r.group_size == 64 && r.bits == 4,
{
}

/// The trunk of a config has as many blocks as that says, each with its heads, its own dialect and
/// padding, and the activation that it names.
pub proof fn trunk_follows_the_config(e: BertEncoder, args: BertArgs, name: &str, named: Result<Activation, String>, i: int)
    requires
        e.follows(args),
        args.num_attention_heads <= i32::MAX,
        name@ == args.hidden_act@,
        call_ensures(Activation::from_name, (name,), named),
        0 <= i < e.layers@.len(),
    ensures
        e.layers@.len() == args.num_hidden_layers,
        e.layers@[i].num_heads == args.num_attention_heads,
        e.embeddings.variant == args.variant,
        e.embeddings.pad_token_id == args.pad_token_id,
        e.args == args,
        named matches Ok(a) && a == e.activation,
{
}

/// A head is an equal share of the hidden width.
pub proof fn encoder_heads_are_equal_shares(args: BertArgs, r: usize)
    requires
        args.num_attention_heads > 0,
        args.hidden_size as int % args.num_attention_heads as int == 0,
        call_ensures(BertArgs::head_dim, (&args,), r),
    ensures
        r * args.num_attention_heads == args.hidden_size,
{
    vstd::arithmetic::div_mod::lemma_fundamental_div_mod(args.hidden_size as int, args.num_attention_heads as int);
    let n = args.num_attention_heads as int;
    assert(n * (args.hidden_size as int / n) == (args.hidden_size as int / n) * n) by (nonlinear_arith);
}

/// The dialect of a config is that of the text under its `model_type`; a config without one has none.
pub proof fn config_names_its_dialect(config: Value, name: &str, v: Option<BertVariant>, r: Option<BertVariant>)
    requires
        call_ensures(BertVariant::from_config, (&config,), r),
        call_ensures(BertVariant::from_name, (Some(name),), v),
    ensures
        json_members(config).contains_key("model_type"@) && json_str(json_members(config)["model_type"@]) == Some(name@)
            ==> r == v,
        !json_members(config).contains_key("model_type"@) || json_str(json_members(config)["model_type"@]) is None
            ==> r is None,
{
}

/// An encoder, an embedding model and a classifier can be laid out exactly where the activation has a
/// name that is known. Each then takes the whole trunk behind what is there; a classifier takes its two
/// projections behind the trunk, where its dialect keeps them, and has as many labels as the second
/// has rows.
pub proof fn encoder_models_take_the_whole_trunk(
    weights: WeightMap,
    args: BertArgs,
    pooling: PoolingMode,
    name: &str,
    named: Result<Activation, String>,
    se: &mut Steps,
    sm: &mut Steps,
    sc: &mut Steps,
    e: Result<BertEncoder, String>,
    m: Result<BertEmbeddingModel, String>,
    c: Result<BertSequenceClassifier, String>,
)
    requires
        name@ == args.hidden_act@,
        call_ensures(Activation::from_name, (name,), named),
        call_ensures(BertEncoder::from_weights, (&weights, args, se), e),
        call_ensures(BertEmbeddingModel::from_weights, (&weights, args, pooling, sm), m),
        call_ensures(BertSequenceClassifier::from_weights, (&weights, args, sc), c),
    ensures
        e is Ok <==> named is Ok,
        m is Ok <==> named is Ok,
        c is Ok <==> named is Ok,
        ({
            let trunk = tables(weights@) + blocks(weights@, args.num_hidden_layers as nat);
            let bert = args.variant == BertVariant::Bert;
            let head = seq![
                linear(if bert { "pooler.dense"@ } else { "classifier.dense"@ }),
                linear(if bert { "classifier"@ } else { "classifier.out_proj"@ }),
            ];
            &&& e is Ok ==> final(se)@ == old(se)@ + trunk
            &&& m is Ok ==> final(sm)@ == old(sm)@ + trunk
            &&& c is Ok ==> final(sc)@ == old(sc)@ + trunk + head
            &&& e is Err ==> final(se)@ == old(se)@
            &&& m is Err ==> final(sm)@ == old(sm)@
            &&& c is Err ==> final(sc)@ == old(sc)@
        }),
        m matches Ok(x) ==> x.pooling == pooling && x.encoder.args == args,
        c matches Ok(x) ==> ({
            let key = (if args.variant == BertVariant::Bert { "classifier"@ } else { "classifier.out_proj"@ }) + ".weight"@;
            &&& x.encoder.args == args
            &&& weights@.contains_key(key) && weights@[key].len() > 0 && weights@[key][0] >= 0 ==> x.head.num_labels
                == weights@[key][0]
            &&& !weights@.contains_key(key) || weights@[key].len() == 0 || weights@[key][0] < 0 ==> x.head.num_labels == 0
        }),
{
    let n = args.num_hidden_layers as nat;
    encoder_load_is_complete(old(se)@, weights@, n);
    encoder_load_is_complete(old(sm)@, weights@, n);
    encoder_load_is_complete(old(sc)@, weights@, n);
    if c is Ok {
        let trunk = tables(weights@) + blocks(weights@, n);
        let bert = args.variant == BertVariant::Bert;
        let first = linear(if bert { "pooler.dense"@ } else { "classifier.dense"@ });
        let second = linear(if bert { "classifier"@ } else { "classifier.out_proj"@ });
        assert((old(sc)@ + trunk).push(first).push(second) =~= old(sc)@ + trunk + seq![first, second]);
    }
}

} // verus!
