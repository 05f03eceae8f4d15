//! The order in which a model takes its tensors out of a checkpoint.
use vstd::prelude::*;
use vstd::string::*;
use crate::weights::{missing, missing_text, PackingRequest, WeightMap};

verus! {

/// What is built from a checkpoint entry.
#[derive(Clone, Copy, PartialEq, Eq, Structural, Debug)]
pub enum StepKind {
    /// An embedding table under a prefix.
    Embedding,
    /// A linear projection under a prefix, quantized or not.
    Linear,
    /// The query, key and value projections under a prefix, joined into one.
    FusedQkv,
    /// A bank of expert projections under a prefix.
    Experts,
    /// One tensor, which must be there.
    Tensor,
    /// One tensor, which may be missing.
    OptionalTensor,
    /// One number, which must be there.
    Scalar,
    /// One number, which may be missing.
    OptionalScalar,
    /// The output projection under a prefix, with its weight normalized first.
    NormalizedHead,
    /// Nothing: the load ends here, with the key as its error.
    Refuse,
}

/// One step of a load.
#[derive(Debug)]
pub struct Step {
    pub kind: StepKind,
    pub key: String,
}

/// The contents of a [`Step`].
pub struct StepView {
    pub kind: StepKind,
    pub key: Seq<char>,
}

/// The steps of a load, in order; the first that fails ends it.
#[derive(Debug)]
pub struct Steps {
    list: Vec<Step>,
}

impl View for Steps {
    type V = Seq<StepView>;

    closed spec fn view(&self) -> Seq<StepView> {
        Seq::new(self.list@.len(), |i: int| StepView { kind: self.list@[i].kind, key: self.list@[i].key@ })
    }
}

/// One more step at the end.
pub open spec fn step(s: Seq<StepView>, kind: StepKind, key: Seq<char>) -> Seq<StepView> {
    s.push(StepView { kind, key })
}

impl Steps {
    /// No steps.
    pub fn new() -> (r: Self)
        ensures r@ == Seq::<StepView>::empty(),
    {
        let r: Steps = Steps { list: Vec::new() };
        assert(r@ =~= Seq::<StepView>::empty());
        r
    }

    /// Adds a step at the end.
    pub fn push(&mut self, kind: StepKind, key: String)
        ensures final(self)@ == step(old(self)@, kind, key@),
    {
        let ghost k = key@;
        self.list.push(Step { kind, key });
        assert(self@ =~= step(old(self)@, kind, k));
    }

    /// The number of steps.
    pub fn len(&self) -> (r: usize)
        ensures r == self@.len(),
    {
        self.list.len()
    }

    /// Step number `i`.
    pub fn get(&self, i: usize) -> (r: &Step)
        requires i < self@.len(),
        ensures r.kind == self@[i as int].kind, r.key@ == self@[i as int].key,
    {
        &self.list[i]
    }
}

/// What a step asks of the engine.
#[derive(Debug)]
pub enum Action {
    /// To build a table or a projection from the tensors under the key.
    Build,
    /// To take the tensor or number that is stored under the key.
    Take,
    /// Nothing: the entry may be missing, and is.
    Skip,
    /// Nothing: the load ends with this error.
    Fail(String),
}

/// What a step asks of the engine, given the stored tensors, or the error that it ends the load with.
pub open spec fn asks(s: StepView, weights: Map<Seq<char>, Seq<i32>>) -> Result<Action, Seq<char>> {
    match s.kind {
        StepKind::Tensor | StepKind::Scalar => if weights.contains_key(s.key) {
            Ok(Action::Take)
        } else {
            Err(missing_text(s.key))
        },
        StepKind::OptionalTensor | StepKind::OptionalScalar => if weights.contains_key(s.key) {
            Ok(Action::Take)
        } else {
            Ok(Action::Skip)
        },
        StepKind::Refuse => Err(s.key),
        _ => Ok(Action::Build),
    }
}

impl Step {
    /// What the step asks of the engine, given the stored tensors.
    pub fn action(&self, weights: &WeightMap) -> (r: Action)
        ensures
            asks(StepView { kind: self.kind, key: self.key@ }, weights@) == (match r {
                Action::Fail(e) => Err(e@),
                _ => Ok::<Action, Seq<char>>(r),
            }),
    {
        match self.kind {
            StepKind::Tensor | StepKind::Scalar => if weights.contains_key(self.key.as_str()) {
                Action::Take
            } else {
                Action::Fail(missing(self.key.as_str()))
            },
            StepKind::OptionalTensor | StepKind::OptionalScalar => if weights.contains_key(self.key.as_str()) {
                Action::Take
            } else {
                Action::Skip
            },
            StepKind::Refuse => Action::Fail(self.key.clone()),
            _ => Action::Build,
        }
    }
}

/// A checkpoint holds what a step takes: the tensor itself, or the weight of a projection. A refusal
/// is never served.
pub open spec fn served(s: StepView, weights: Map<Seq<char>, Seq<i32>>) -> bool {
    match s.kind {
        StepKind::Tensor | StepKind::Scalar => weights.contains_key(s.key),
        StepKind::Linear | StepKind::NormalizedHead => weights.contains_key(s.key + ".weight"@),
        StepKind::Refuse => false,
        _ => true,
    }
}

/// A checkpoint holds what every step takes.
pub open spec fn all_served(s: Seq<StepView>, weights: Map<Seq<char>, Seq<i32>>) -> bool {
    forall|i: int| 0 <= i < s.len() ==> served(#[trigger] s[i], weights)
}

/// No step of a load whose steps are all served ends it for want of a tensor.
pub proof fn served_steps_do_not_fail(s: Seq<StepView>, weights: Map<Seq<char>, Seq<i32>>, i: int)
    requires
        all_served(s, weights),
        0 <= i < s.len(),
    ensures
        asks(s[i], weights) is Ok,
{
}

/// What came of laying out a model.
pub enum Build<M> {
    /// The model, with the steps that load its tensors.
    Ready(M, Steps),
    /// The config or the checkpoint is refused.
    Refused(String),
    /// The engine has to be asked first.
    Ask(PackingRequest),
}

} // verus!
