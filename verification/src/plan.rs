//! What a forward pass decides before the tensor engine computes: shapes, rotations, key ranges,
//! masks and routing pivots.
use vstd::prelude::*;

verus! {

/// A rotary embedding over the first `dims` channels of each head, from position `offset` on.
#[derive(Clone, Copy, Debug, PartialEq, Eq, Structural)]
pub struct Rope {
    pub dims: i32,
    pub traditional: bool,
    pub offset: i32,
}

/// How one attention block splits its input into heads, and what it rotates them by.
/// Queries become `[batch, length, q_heads, head_dim]`, keys and values
/// `[batch, length, kv_heads, head_dim]`; the attended heads are merged to
/// `[batch, length, width]`.
#[derive(Clone, Copy, Debug)]
pub struct HeadPlan {
    pub batch: i32,
    pub length: i32,
    pub q_heads: i32,
    pub kv_heads: i32,
    pub head_dim: i32,
    pub rope: Option<Rope>,
    pub width: i32,
}

/// Where a fused projection is cut: queries `[0, q_end)`, keys `[q_end, k_end)`, values
/// `[k_end, v_end)` of its last axis.
#[derive(Clone, Copy, Debug, PartialEq, Eq, Structural)]
pub struct QkvCut {
    pub q_end: i32,
    pub k_end: i32,
    pub v_end: i32,
}

/// The attention kernel.
#[derive(Clone, Copy, Debug, PartialEq, Eq, Structural)]
pub enum Kernel {
    /// The kernel that builds its own causal mask, within a window when that is positive.
    Causal { window: i32 },
    /// The kernel that takes the mask it is given, or none.
    Masked { window: i32 },
}

/// The keys and values that attention reads, and the kernel that reads them.
#[derive(Clone, Copy, Debug)]
pub struct AttendPlan {
    /// First and past-last key, where not all of them are read.
    pub keys: Option<(i32, i32)>,
    pub kernel: Kernel,
}

/// `a * b` fits an `i32`.
pub open spec fn fits_mul(a: int, b: int) -> bool {
    i32::MIN <= a * b <= i32::MAX
}

/// The kernel of the families whose prefill may come without a mask.
pub open spec fn causal_unless_masked(length: i32, has_mask: bool, window: i32) -> AttendPlan {
    AttendPlan {
        keys: None,
        kernel: if length > 1 && !has_mask { Kernel::Causal { window } } else { Kernel::Masked { window } },
    }
}

/// The kernel of the families whose prefill may come without a mask.
pub fn attend_causal(length: i32, has_mask: bool, window: i32) -> (r: AttendPlan)
    ensures r == causal_unless_masked(length, has_mask, window),
{
    if length > 1 && !has_mask {
        AttendPlan { keys: None, kernel: Kernel::Causal { window } }
    } else {
        AttendPlan { keys: None, kernel: Kernel::Masked { window } }
    }
}

/// The product of the lengths in a shape.
pub open spec fn elements(s: Seq<i32>) -> int
    decreases s.len(),
{
    if s.len() == 0 { 1 } else { elements(s.drop_last()) * s.last() }
}

/// Every leading part of the shape has a number of elements that fits an `i32`.
pub open spec fn countable(s: Seq<i32>) -> bool {
    forall|k: int| 0 <= k <= s.len() ==> i32::MIN <= #[trigger] elements(s.subrange(0, k)) <= i32::MAX
}

/// How a sparse block flattens its input.
#[derive(Clone, Copy, Debug)]
pub struct FlatPlan {
    /// Rows of the flattened input, where it has to be reshaped.
    pub tokens: Option<i32>,
    pub hidden: i32,
    /// Whether the fused single-token kernel may be tried.
    pub single_token: bool,
}

/// Rows of the flattened form of `s`.
pub open spec fn flat_rows(s: Seq<i32>) -> int {
    if s.len() > 2 { elements(s.drop_last()) } else { s[0] as int }
}

/// The flattening of a shape of at least two axes: all but the last become one.
pub open spec fn flat_plan(s: Seq<i32>) -> FlatPlan {
    FlatPlan {
        tokens: if s.len() > 2 { Some(elements(s.drop_last()) as i32) } else { None },
        hidden: s[s.len() - 1],
        single_token: flat_rows(s) == 1,
    }
}

/// The flattening of a shape of at least two axes.
pub fn flatten(shape: &Vec<i32>) -> (r: FlatPlan)
    requires
        shape@.len() >= 2,
        countable(shape@.drop_last()),
    ensures
        r == flat_plan(shape@),
{
    let n: usize = shape.len();
    let hidden: i32 = shape[n - 1];
    if n <= 2 {
        return FlatPlan { tokens: None, hidden, single_token: shape[0] == 1 };
    }
    let ghost lead = shape@.drop_last();
    let mut tokens: i32 = 1;
    let mut i: usize = 0;
    assert(elements(lead.subrange(0, 0)) == 1);
    while i < n - 1
        invariant
            n == shape@.len(),
            lead == shape@.drop_last(),
            countable(lead),
            0 <= i <= n - 1,
            tokens == elements(lead.subrange(0, i as int)),
        decreases n - i,
    {
        proof {
            let longer = lead.subrange(0, i + 1);
            assert(longer.drop_last() =~= lead.subrange(0, i as int));
            assert(longer.last() == shape@[i as int]);
            assert(elements(longer) == tokens * shape@[i as int]);
        }
        tokens = tokens * shape[i];
        i = i + 1;
    }
    assert(lead.subrange(0, (n - 1) as int) =~= lead);
    FlatPlan { tokens: Some(tokens), hidden, single_token: tokens == 1 }
}

/// Flattening keeps the number of elements.
pub proof fn flatten_keeps_elements(s: Seq<i32>)
    requires
        s.len() > 2,
        countable(s.drop_last()),
    ensures
        flat_plan(s).tokens matches Some(t) ==> t * flat_plan(s).hidden == elements(s),
{
    let lead = s.drop_last();
    assert(lead.subrange(0, lead.len() as int) =~= lead);
}

/// What selected weights are divided by.
#[derive(Clone, Copy, Debug, PartialEq, Eq, Structural)]
pub enum Divisor {
    /// Their sum.
    Sum,
    /// Their sum plus the single of the given bits.
    SumPlus(u32),
    /// Their sum, or the single of the given bits where that is larger.
    SumAtLeast(u32),
}

/// How a row of logits is scored.
#[derive(Clone, Copy, Debug, PartialEq, Eq, Structural)]
pub enum Scoring {
    /// Each logit by the sigmoid.
    Sigmoid,
    /// The row by the softmax.
    Softmax,
    /// The row by the softmax that accumulates in full precision.
    PreciseSoftmax,
}

/// An entry of an expert that a router reads.
#[derive(Clone, Copy, Debug, PartialEq, Eq, Structural)]
pub enum Basis {
    /// The logit itself.
    Logit,
    /// The score of the logit.
    Score,
    /// The score with the selection bias added.
    BiasedScore,
}

/// What the weights of a router are returned in. They are computed in single precision.
#[derive(Clone, Copy, Debug, PartialEq, Eq, Structural)]
pub enum Precision {
    /// Single precision, as they were computed.
    Single,
    /// The precision of the logits.
    Logits,
}

/// How a router picks its experts from a row of logits, and what it weighs them by.
#[derive(Clone, Copy, Debug)]
pub struct RoutePlan {
    pub scoring: Scoring,
    /// What the experts are selected by.
    pub selected_by: Basis,
    /// What the weights of the selected experts are gathered from.
    pub weighed_by: Basis,
    /// Number of groups and of groups kept, where routing is grouped.
    pub groups: Option<(i32, i32)>,
    /// Whether the row is partitioned largest first; if not, smallest first.
    pub descending: bool,
    /// Pivot of the partition.
    pub kth: i32,
    /// First selected position of the partitioned row.
    pub first: i32,
    /// Past-last selected position; -1 stands for the end of the row.
    pub stop: i32,
    /// What the selected weights are divided by, where they are.
    pub divisor: Option<Divisor>,
    /// Bits of the single that the selected weights are multiplied by, where they are.
    pub scale: Option<u32>,
    /// What the weights are returned in, once they are divided and multiplied.
    pub weights_in: Precision,
}

impl RoutePlan {
    /// Past-last selected position of a row of `n`.
    pub open spec fn end(self, n: int) -> int {
        if self.stop == -1 { n } else { self.stop as int }
    }

    /// From a row of `n` the plan selects exactly `k` experts, and they are the ones with the
    /// largest entries: the selected positions are the whole side of the pivot that holds them.
    pub open spec fn picks_largest(self, n: int, k: int) -> bool {
        &&& 0 <= self.kth < n
        &&& self.end(n) - self.first == k
        &&& if self.descending {
            self.first == 0 && self.end(n) == self.kth + 1
        } else {
            self.first == self.kth && self.end(n) == n
        }
    }
}

} // verus!
