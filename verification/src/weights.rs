//! The tensors of a checkpoint by name and shape, and the shape checks that run on them.
use vstd::hash_map::StringHashMap;
use vstd::prelude::*;
use vstd::string::*;
use crate::text::{dec, shape_text, text};

verus! {

/// The tensors of a checkpoint: each name with the shape stored under it.
pub struct WeightMap {
    names: Vec<String>,
    shapes: StringHashMap<Vec<i32>>,
}

impl View for WeightMap {
    type V = Map<Seq<char>, Seq<i32>>;

    closed spec fn view(&self) -> Map<Seq<char>, Seq<i32>> {
        Map::new(|k: Seq<char>| self.shapes@.contains_key(k), |k: Seq<char>| self.shapes@[k]@)
    }
}

/// The same shape in a vector of its own.
pub fn copy_shape(v: &Vec<i32>) -> (r: Vec<i32>)
    ensures r@ == v@,
{
    let mut r: Vec<i32> = Vec::new();
    let mut i: usize = 0;
    while i < v.len()
        invariant
            i <= v.len(),
            r@ =~= v@.subrange(0, i as int),
        decreases v.len() - i,
    {
        r.push(v[i]);
        i = i + 1;
    }
    assert(r@ =~= v@);
    r
}

impl WeightMap {
    /// Every stored name is on the list that is walked.
    pub closed spec fn wf(&self) -> bool {
        forall|k: Seq<char>| #[trigger] self.shapes@.contains_key(k) ==> listed(self.names@, k)
    }

    /// No tensors.
    pub fn new() -> (r: Self)
        ensures
            r@ == Map::<Seq<char>, Seq<i32>>::empty(),
            r.wf(),
    {
        let r: WeightMap = WeightMap { names: Vec::new(), shapes: StringHashMap::new() };
        assert(r@ =~= Map::<Seq<char>, Seq<i32>>::empty());
        r
    }

    /// Stores a tensor's shape, in place of one already under that name.
    pub fn insert(&mut self, name: String, shape: Vec<i32>)
        ensures
            final(self)@ == old(self)@.insert(name@, shape@),
            old(self).wf() ==> final(self).wf(),
    {
        let ghost k0 = name@;
        let ghost before = self.names@;
        let kept: String = name.clone();
        self.names.push(name);
        self.shapes.insert(kept, shape);
        proof {
            assert(self@ =~= old(self)@.insert(k0, shape@));
            if old(self).wf() {
                assert forall|k: Seq<char>| #[trigger] self.shapes@.contains_key(k) implies listed(self.names@, k) by {
                    if k == k0 {
                        assert(self.names@[before.len() as int]@ == k);
                    } else {
                        assert(old(self).shapes@.contains_key(k));
                        assert(listed(before, k));
                        let i = choose|i: int| 0 <= i < before.len() && (#[trigger] before[i])@ == k;
                        assert(self.names@[i]@ == k);
                    }
                }
            }
        }
    }

    /// Takes a tensor out.
    pub fn remove(&mut self, name: &str)
        ensures
            final(self)@ == old(self)@.remove(name@),
            old(self).wf() ==> final(self).wf(),
    {
        self.shapes.remove(name);
        proof {
            assert(self@ =~= old(self)@.remove(name@));
            if old(self).wf() {
                assert forall|k: Seq<char>| #[trigger] self.shapes@.contains_key(k) implies listed(self.names@, k) by {
                    assert(old(self).shapes@.contains_key(k));
                }
            }
        }
    }

    /// Whether a tensor of that name is stored.
    pub fn contains_key(&self, name: &str) -> (r: bool)
        ensures r == self@.contains_key(name@),
    {
        self.shapes.contains_key(name)
    }

    /// The shape under a name.
    pub fn get(&self, name: &str) -> (r: Option<&Vec<i32>>)
        ensures
            match r {
                Some(s) => self@.contains_key(name@) && s@ == self@[name@],
                None => !self@.contains_key(name@),
            },
    {
        self.shapes.get(name)
    }

    /// The number of tensors.
    pub fn len(&self) -> (r: usize)
        ensures r == self@.len(),
    {
        assert(self@.dom() =~= self.shapes@.dom());
        self.shapes.len()
    }

    /// The number of names on the list that is walked.
    pub closed spec fn slots(&self) -> nat {
        self.names@.len()
    }

    /// Name number `i` of the list that is walked.
    pub closed spec fn slot(&self, i: int) -> Seq<char> {
        self.names@[i]@
    }

    /// A stored name is on the list.
    pub proof fn lemma_listed(&self, k: Seq<char>)
        requires
            self.wf(),
            self@.contains_key(k),
        ensures
            exists|i: int| 0 <= i < self.slots() && #[trigger] self.slot(i) == k,
    {
        assert(self.shapes@.contains_key(k));
        let i = choose|i: int| 0 <= i < self.names@.len() && (#[trigger] self.names@[i])@ == k;
        assert(self.slot(i) == k);
    }

    /// Length of the list that is walked; a name may stand on it twice, or after its tensor left.
    pub fn slot_count(&self) -> (r: usize)
        ensures r == self.slots(),
    {
        self.names.len()
    }

    /// One name of the list that is walked.
    pub fn slot_name(&self, i: usize) -> (r: &str)
        requires i < self.slots(),
        ensures r@ == self.slot(i as int),
    {
        self.names[i].as_str()
    }
}

/// `k` is one of the names.
pub open spec fn listed(names: Seq<String>, k: Seq<char>) -> bool {
    exists|i: int| 0 <= i < names.len() && (#[trigger] names[i])@ == k
}

/// What the tensor engine said of the packing of each quantized tensor asked about so far.
pub struct PackingAnswers {
    answers: StringHashMap<Option<String>>,
}

impl View for PackingAnswers {
    type V = Map<Seq<char>, Option<Seq<char>>>;

    closed spec fn view(&self) -> Map<Seq<char>, Option<Seq<char>>> {
        Map::new(
            |k: Seq<char>| self.answers@.contains_key(k),
            |k: Seq<char>| match self.answers@[k] {
                Some(e) => Some(e@),
                None => None,
            },
        )
    }
}

impl PackingAnswers {
    /// Nothing asked yet.
    pub fn new() -> (r: Self)
        ensures r@ == Map::<Seq<char>, Option<Seq<char>>>::empty(),
    {
        let r: PackingAnswers = PackingAnswers { answers: StringHashMap::new() };
        assert(r@ =~= Map::<Seq<char>, Option<Seq<char>>>::empty());
        r
    }

    /// Records that the packing under `prefix` was accepted.
    pub fn accept(&mut self, prefix: String)
        ensures final(self)@ == old(self)@.insert(prefix@, None),
    {
        let ghost p = prefix@;
        self.answers.insert(prefix, None);
        assert(self@ =~= old(self)@.insert(p, None));
    }

    /// Records the error that refused the packing under `prefix`.
    pub fn refuse(&mut self, prefix: String, error: String)
        ensures final(self)@ == old(self)@.insert(prefix@, Some(error@)),
    {
        let ghost p = prefix@;
        let ghost e = error@;
        self.answers.insert(prefix, Some(error));
        assert(self@ =~= old(self)@.insert(p, Some(e)));
    }

    /// The answer on record.
    pub fn get(&self, prefix: &str) -> (r: Option<&Option<String>>)
        ensures
            match r {
                Some(Some(e)) => self@.contains_key(prefix@) && self@[prefix@] == Some(e@),
                Some(None) => self@.contains_key(prefix@) && self@[prefix@] == None::<Seq<char>>,
                None => !self@.contains_key(prefix@),
            },
    {
        self.answers.get(prefix)
    }
}

/// The shapes of one quantized tensor and the parameters to hold them against.
pub struct PackingRequest {
    pub prefix: String,
    pub weight: Vec<i32>,
    pub scales: Vec<i32>,
    pub biases: Option<Vec<i32>>,
    pub in_features: usize,
    pub group_size: i32,
    pub bits: i32,
}

/// The contents of a [`PackingRequest`].
pub struct RequestView {
    pub prefix: Seq<char>,
    pub weight: Seq<i32>,
    pub scales: Seq<i32>,
    pub biases: Option<Seq<i32>>,
    pub in_features: nat,
    pub group_size: i32,
    pub bits: i32,
}

impl View for PackingRequest {
    type V = RequestView;

    open spec fn view(&self) -> RequestView {
        RequestView {
            prefix: self.prefix@,
            weight: self.weight@,
            scales: self.scales@,
            biases: match self.biases {
                Some(b) => Some(b@),
                None => None,
            },
            in_features: self.in_features as nat,
            group_size: self.group_size,
            bits: self.bits,
        }
    }
}

/// Where a run of checks stands: all passed, one failed, or the engine has to be asked first.
pub enum Outcome {
    Pass,
    Fail(String),
    Ask(PackingRequest),
}

/// The contents of an [`Outcome`].
pub enum Verdict {
    Pass,
    Fail(Seq<char>),
    Ask(RequestView),
}

impl View for Outcome {
    type V = Verdict;

    open spec fn view(&self) -> Verdict {
        match self {
            Outcome::Pass => Verdict::Pass,
            Outcome::Fail(e) => Verdict::Fail(e@),
            Outcome::Ask(r) => Verdict::Ask(r@),
        }
    }
}

impl Outcome {
    /// Whether nothing stands against going on.
    pub fn passed(&self) -> (r: bool)
        ensures r == (self@ is Pass),
    {
        match self {
            Outcome::Pass => true,
            _ => false,
        }
    }
}

/// Two checks in a row: the second counts once the first passed.
pub open spec fn after(a: Verdict, b: Verdict) -> Verdict {
    if a is Pass { b } else { a }
}

/// How a family words its projection errors, and whether it looks at `bias` tensors.
#[derive(Clone, Copy, PartialEq, Eq, Structural, Debug)]
pub enum ProjectionStyle {
    Plain,
    Bailing,
    Ling,
}

/// A checkpoint under inspection.
pub struct Checkpoint<'a> {
    pub weights: &'a WeightMap,
    pub answers: &'a PackingAnswers,
    pub group_size: i32,
    pub bits: i32,
    pub style: ProjectionStyle,
}

/// The contents of a [`Checkpoint`].
pub struct CheckpointView {
    pub weights: Map<Seq<char>, Seq<i32>>,
    pub answers: Map<Seq<char>, Option<Seq<char>>>,
    pub group_size: i32,
    pub bits: i32,
    pub style: ProjectionStyle,
}

impl<'a> View for Checkpoint<'a> {
    type V = CheckpointView;

    open spec fn view(&self) -> CheckpointView {
        CheckpointView {
            weights: self.weights@,
            answers: self.answers@,
            group_size: self.group_size,
            bits: self.bits,
            style: self.style,
        }
    }
}

/// A tensor axis has the expected length.
pub fn dim_eq(dim: i32, expected: usize) -> (r: bool)
    ensures r == (dim as int == expected as int),
{
    dim >= 0 && dim as u64 == expected as u64
}

/// The name of decoder layer `i`.
pub open spec fn layer_name(i: nat) -> Seq<char> {
    "model.layers."@ + dec(i)
}

/// The name of decoder layer `i`.
pub fn layer_prefix(i: usize) -> (r: String)
    ensures r@ == layer_name(i as nat),
{
    text("model.layers.").num(i).done()
}

/// The message for a tensor that is not there.
pub open spec fn missing_text(key: Seq<char>) -> Seq<char> {
    "Weight not found: "@ + key
}

/// The message for a tensor that is not there.
pub fn missing(key: &str) -> (r: String)
    ensures r@ == missing_text(key@),
{
    text("Weight not found: ").lit(key).done()
}

/// The opening of a message on a tensor's shape.
pub open spec fn unexpected_text(key: Seq<char>, shape: Seq<i32>) -> Seq<char> {
    "unexpected "@ + key + " shape "@ + shape_text(shape) + ": expected "@
}

fn unexpected(key: &str, shape: &Vec<i32>) -> (r: String)
    ensures r@ == unexpected_text(key@, shape@),
{
    text("unexpected ").lit(key).lit(" shape ").shape(shape).lit(": expected ").done()
}

/// The hint for a projection whose rows match the input width.
pub open spec fn transposed_hint(style: ProjectionStyle) -> Seq<char> {
    match style {
        ProjectionStyle::Plain => ""@,
        ProjectionStyle::Bailing => " That is the [in, out] orientation; Bailing builds every projection with nn.Linear, so a genuine checkpoint is already [out, in] and must not be transposed."@,
        ProjectionStyle::Ling => " That is the [in, out] orientation; every projection here is an nn.Linear, so a genuine checkpoint is already [out, in] and must not be transposed."@,
    }
}

impl CheckpointView {
    /// A quantized tensor is stored under `prefix`.
    pub open spec fn quantized(self, prefix: Seq<char>) -> bool {
        self.weights.contains_key(prefix + ".scales"@)
    }

    /// A one-dimensional tensor `key` of length `dim`.
    pub open spec fn norm(self, key: Seq<char>, dim: nat) -> Verdict {
        if !self.weights.contains_key(key) {
            Verdict::Fail(missing_text(key))
        } else {
            let s = self.weights[key];
            if s.len() != 1 || s[0] != dim {
                Verdict::Fail(unexpected_text(key, s) + "["@ + dec(dim) + "]"@)
            } else {
                Verdict::Pass
            }
        }
    }

    /// What the engine is asked of the quantized tensor under `prefix`.
    pub open spec fn request(self, prefix: Seq<char>, in_features: nat) -> RequestView {
        RequestView {
            prefix,
            weight: self.weights[prefix + ".weight"@],
            scales: self.weights[prefix + ".scales"@],
            biases: if self.weights.contains_key(prefix + ".biases"@) {
                Some(self.weights[prefix + ".biases"@])
            } else {
                None
            },
            in_features,
            group_size: self.group_size,
            bits: self.bits,
        }
    }

    /// The packing of a quantized tensor; one that is not quantized has none.
    pub open spec fn packing(self, prefix: Seq<char>, in_features: nat) -> Verdict {
        if !self.quantized(prefix) {
            Verdict::Pass
        } else if !self.weights.contains_key(prefix + ".weight"@) {
            Verdict::Fail(
                "Weight not found: "@ + prefix + ".weight (but "@ + prefix + ".scales exists)"@,
            )
        } else if !self.answers.contains_key(prefix) {
            Verdict::Ask(self.request(prefix, in_features))
        } else {
            match self.answers[prefix] {
                Some(e) => Verdict::Fail(e),
                None => Verdict::Pass,
            }
        }
    }

    /// The `bias` of a projection, where the family looks at it and one is stored.
    pub open spec fn projection_bias(self, prefix: Seq<char>, out_features: nat) -> Verdict {
        let key = prefix + ".bias"@;
        if self.style == ProjectionStyle::Plain || !self.weights.contains_key(key) {
            Verdict::Pass
        } else {
            let s = self.weights[key];
            if s.len() != 1 || s[0] != out_features {
                Verdict::Fail(unexpected_text(key, s) + "["@ + dec(out_features) + "]"@)
            } else {
                Verdict::Pass
            }
        }
    }

    /// A projection `[out, in]`; the width of a quantized one is left to its packing.
    pub open spec fn projection(self, prefix: Seq<char>, out_features: nat, in_features: nat) -> Verdict {
        let key = prefix + ".weight"@;
        if !self.weights.contains_key(key) {
            Verdict::Fail(missing_text(key))
        } else {
            let s = self.weights[key];
            if s.len() != 2 {
                Verdict::Fail(unexpected_text(key, s) + "a 2-D [out, in] projection"@)
            } else if s[0] != out_features {
                if self.style == ProjectionStyle::Plain {
                    Verdict::Fail(unexpected_text(key, s) + dec(out_features) + " rows"@)
                } else if !self.quantized(prefix) && s[0] == in_features {
                    Verdict::Fail(
                        unexpected_text(key, s) + dec(out_features) + " rows."@ + transposed_hint(self.style),
                    )
                } else {
                    Verdict::Fail(unexpected_text(key, s) + dec(out_features) + " rows."@)
                }
            } else if !self.quantized(prefix) && s[1] != in_features {
                Verdict::Fail(
                    unexpected_text(key, s) + "["@ + dec(out_features) + ", "@ + dec(in_features) + "]"@,
                )
            } else {
                after(self.packing(prefix, in_features), self.projection_bias(prefix, out_features))
            }
        }
    }

    /// A stack of expert matrices `[num_experts, out, in]`, with at least one plane per expert.
    pub open spec fn stacked(
        self,
        prefix: Seq<char>,
        num_experts: nat,
        out_features: nat,
        in_features: nat,
    ) -> Verdict {
        let key = prefix + ".weight"@;
        if !self.weights.contains_key(key) {
            Verdict::Fail(missing_text(key))
        } else {
            let s = self.weights[key];
            let planes: nat = if s[0] < 0 { 0 } else { s[0] as nat };
            if s.len() != 3 {
                Verdict::Fail(
                    unexpected_text(key, s) + "a 3-D [num_experts, out, in] stacked expert tensor"@,
                )
            } else if planes < num_experts {
                Verdict::Fail(
                    "config num_experts ("@ + dec(num_experts) + ") exceeds the "@ + dec(planes)
                        + " expert planes present in "@ + key
                        + ". The router selects indices below num_experts and the gather behind gather_mm / gather_qmm does not range-check a positive index, so the missing planes would be read out of bounds and the result would reach the logits."@,
                )
            } else if s[1] != out_features {
                Verdict::Fail(unexpected_text(key, s) + dec(out_features) + " rows per expert"@)
            } else if !self.quantized(prefix) && s[2] != in_features {
                Verdict::Fail(
                    unexpected_text(key, s) + "["@ + dec(planes) + ", "@ + dec(out_features) + ", "@
                        + dec(in_features) + "]"@,
                )
            } else {
                self.packing(prefix, in_features)
            }
        }
    }

    /// The three projections of a SwiGLU block.
    pub open spec fn mlp(self, prefix: Seq<char>, hidden: nat, intermediate: nat) -> Verdict {
        after(
            self.projection(prefix + ".gate_proj"@, intermediate, hidden),
            after(
                self.projection(prefix + ".up_proj"@, intermediate, hidden),
                self.projection(prefix + ".down_proj"@, hidden, intermediate),
            ),
        )
    }

    /// The selection bias of a router, where one is stored.
    pub open spec fn score_bias(self, key: Seq<char>, num_experts: nat) -> Verdict {
        if !self.weights.contains_key(key) {
            Verdict::Pass
        } else {
            let s = self.weights[key];
            if s.len() != 1 || s[0] != num_experts {
                Verdict::Fail(
                    unexpected_text(key, s) + "["@ + dec(num_experts)
                        + "]; it is added to a row of that many router scores"@,
                )
            } else {
                Verdict::Pass
            }
        }
    }
}

impl<'a> Checkpoint<'a> {
    /// A one-dimensional tensor of a given length.
    pub fn norm(&self, key: &str, dim: usize) -> (r: Outcome)
        ensures r@ == self@.norm(key@, dim as nat),
    {
        match self.weights.get(key) {
            None => Outcome::Fail(missing(key)),
            Some(s) => {
                if s.len() != 1 || !dim_eq(s[0], dim) {
                    let head: String = unexpected(key, s);
                    Outcome::Fail(text(head.as_str()).lit("[").num(dim).lit("]").done())
                } else {
                    Outcome::Pass
                }
            },
        }
    }

    /// The packing of a quantized tensor.
    pub fn packing(&self, prefix: &str, in_features: usize) -> (r: Outcome)
        ensures r@ == self@.packing(prefix@, in_features as nat),
    {
        let scales_key: String = text(prefix).lit(".scales").done();
        let weight_key: String = text(prefix).lit(".weight").done();
        let biases_key: String = text(prefix).lit(".biases").done();
        match self.weights.get(scales_key.as_str()) {
            None => Outcome::Pass,
            Some(scales) => match self.weights.get(weight_key.as_str()) {
                None => Outcome::Fail(
                    text("Weight not found: ").lit(prefix).lit(".weight (but ").lit(prefix).lit(
                        ".scales exists)",
                    ).done(),
                ),
                Some(weight) => match self.answers.get(prefix) {
                    Some(Some(e)) => Outcome::Fail(e.clone()),
                    Some(None) => Outcome::Pass,
                    None => {
                        let biases: Option<Vec<i32>> = match self.weights.get(biases_key.as_str()) {
                            Some(b) => Some(copy_shape(b)),
                            None => None,
                        };
                        Outcome::Ask(
                            PackingRequest {
                                prefix: prefix.to_owned(),
                                weight: copy_shape(weight),
                                scales: copy_shape(scales),
                                biases,
                                in_features,
                                group_size: self.group_size,
                                bits: self.bits,
                            },
                        )
                    },
                },
            },
        }
    }

    fn projection_bias(&self, prefix: &str, out_features: usize) -> (r: Outcome)
        ensures r@ == self@.projection_bias(prefix@, out_features as nat),
    {
        if self.style == ProjectionStyle::Plain {
            return Outcome::Pass;
        }
        let key: String = text(prefix).lit(".bias").done();
        match self.weights.get(key.as_str()) {
            None => Outcome::Pass,
            Some(s) => {
                if s.len() != 1 || !dim_eq(s[0], out_features) {
                    let head: String = unexpected(key.as_str(), s);
                    Outcome::Fail(text(head.as_str()).lit("[").num(out_features).lit("]").done())
                } else {
                    Outcome::Pass
                }
            },
        }
    }

    /// A projection `[out, in]`.
    pub fn projection(&self, prefix: &str, out_features: usize, in_features: usize) -> (r: Outcome)
        ensures r@ == self@.projection(prefix@, out_features as nat, in_features as nat),
    {
        let key: String = text(prefix).lit(".weight").done();
        let scales_key: String = text(prefix).lit(".scales").done();
        let quantized: bool = self.weights.contains_key(scales_key.as_str());
        match self.weights.get(key.as_str()) {
            None => Outcome::Fail(missing(key.as_str())),
            Some(s) => {
                let head: String = unexpected(key.as_str(), s);
                if s.len() != 2 {
                    return Outcome::Fail(text(head.as_str()).lit("a 2-D [out, in] projection").done());
                }
                if !dim_eq(s[0], out_features) {
                    if self.style == ProjectionStyle::Plain {
                        return Outcome::Fail(text(head.as_str()).num(out_features).lit(" rows").done());
                    }
                    if !quantized && dim_eq(s[0], in_features) {
                        let hint: &str = match self.style {
                            ProjectionStyle::Plain => "",
                            ProjectionStyle::Bailing => " That is the [in, out] orientation; Bailing builds every projection with nn.Linear, so a genuine checkpoint is already [out, in] and must not be transposed.",
                            ProjectionStyle::Ling => " That is the [in, out] orientation; every projection here is an nn.Linear, so a genuine checkpoint is already [out, in] and must not be transposed.",
                        };
                        return Outcome::Fail(
                            text(head.as_str()).num(out_features).lit(" rows.").lit(hint).done(),
                        );
                    }
                    return Outcome::Fail(text(head.as_str()).num(out_features).lit(" rows.").done());
                }
                if !quantized && !dim_eq(s[1], in_features) {
                    return Outcome::Fail(
                        text(head.as_str()).lit("[").num(out_features).lit(", ").num(in_features).lit(
                            "]",
                        ).done(),
                    );
                }
                let packed: Outcome = self.packing(prefix, in_features);
                if !packed.passed() {
                    return packed;
                }
                self.projection_bias(prefix, out_features)
            },
        }
    }

    /// A stack of expert matrices.
    pub fn stacked(&self, prefix: &str, num_experts: usize, out_features: usize, in_features: usize) -> (r: Outcome)
        ensures
            r@ == self@.stacked(prefix@, num_experts as nat, out_features as nat, in_features as nat),
    {
        let key: String = text(prefix).lit(".weight").done();
        let scales_key: String = text(prefix).lit(".scales").done();
        match self.weights.get(key.as_str()) {
            None => Outcome::Fail(missing(key.as_str())),
            Some(s) => {
                let head: String = unexpected(key.as_str(), s);
                if s.len() != 3 {
                    return Outcome::Fail(
                        text(head.as_str()).lit("a 3-D [num_experts, out, in] stacked expert tensor").done(),
                    );
                }
                let planes: usize = if s[0] < 0 { 0 } else { s[0] as usize };
                if planes < num_experts {
                    return Outcome::Fail(
                        text("config num_experts (").num(num_experts).lit(") exceeds the ").num(planes).lit(
                            " expert planes present in ",
                        ).lit(key.as_str()).lit(
                            ". The router selects indices below num_experts and the gather behind gather_mm / gather_qmm does not range-check a positive index, so the missing planes would be read out of bounds and the result would reach the logits.",
                        ).done(),
                    );
                }
                if !dim_eq(s[1], out_features) {
                    return Outcome::Fail(
                        text(head.as_str()).num(out_features).lit(" rows per expert").done(),
                    );
                }
                if !self.weights.contains_key(scales_key.as_str()) && !dim_eq(s[2], in_features) {
                    return Outcome::Fail(
                        text(head.as_str()).lit("[").num(planes).lit(", ").num(out_features).lit(", ").num(
                            in_features,
                        ).lit("]").done(),
                    );
                }
                self.packing(prefix, in_features)
            },
        }
    }

    /// The three projections of a SwiGLU block.
    pub fn mlp(&self, prefix: &str, hidden: usize, intermediate: usize) -> (r: Outcome)
        ensures r@ == self@.mlp(prefix@, hidden as nat, intermediate as nat),
    {
        let gate: String = text(prefix).lit(".gate_proj").done();
        let up: String = text(prefix).lit(".up_proj").done();
        let down: String = text(prefix).lit(".down_proj").done();
        let r: Outcome = self.projection(gate.as_str(), intermediate, hidden);
        if !r.passed() {
            return r;
        }
        let r: Outcome = self.projection(up.as_str(), intermediate, hidden);
        if !r.passed() {
            return r;
        }
        self.projection(down.as_str(), hidden, intermediate)
    }

    /// The selection bias of a router.
    pub fn score_bias(&self, key: &str, num_experts: usize) -> (r: Outcome)
        ensures r@ == self@.score_bias(key@, num_experts as nat),
    {
        match self.weights.get(key) {
            None => Outcome::Pass,
            Some(s) => {
                if s.len() != 1 || !dim_eq(s[0], num_experts) {
                    let head: String = unexpected(key, s);
                    Outcome::Fail(
                        text(head.as_str()).lit("[").num(num_experts).lit(
                            "]; it is added to a row of that many router scores",
                        ).done(),
                    )
                } else {
                    Outcome::Pass
                }
            },
        }
    }
}

/// A question, where there is one, is about a quantized tensor that has no answer on record, and
/// hands over that tensor's own shapes.
pub open spec fn asks_soundly(c: CheckpointView, v: Verdict) -> bool {
    v matches Verdict::Ask(r) ==> {
        &&& c.quantized(r.prefix)
        &&& c.weights.contains_key(r.prefix + ".weight"@)
        &&& !c.answers.contains_key(r.prefix)
        &&& r == c.request(r.prefix, r.in_features)
    }
}

pub proof fn lemma_projection_asks(c: CheckpointView, prefix: Seq<char>, out_features: nat, in_features: nat)
    ensures asks_soundly(c, c.projection(prefix, out_features, in_features)),
{
}

pub proof fn lemma_stacked_asks(c: CheckpointView, prefix: Seq<char>, n: nat, out_features: nat, in_features: nat)
    ensures asks_soundly(c, c.stacked(prefix, n, out_features, in_features)),
{
}

pub proof fn lemma_mlp_asks(c: CheckpointView, prefix: Seq<char>, hidden: nat, intermediate: nat)
    ensures asks_soundly(c, c.mlp(prefix, hidden, intermediate)),
{
    lemma_projection_asks(c, prefix + ".gate_proj"@, intermediate, hidden);
    lemma_projection_asks(c, prefix + ".up_proj"@, intermediate, hidden);
    lemma_projection_asks(c, prefix + ".down_proj"@, hidden, intermediate);
}

/// The checkpoint without the tensor `gone`.
pub open spec fn without(c: CheckpointView, gone: Seq<char>) -> CheckpointView {
    CheckpointView {
        weights: c.weights.remove(gone),
        answers: c.answers,
        group_size: c.group_size,
        bits: c.bits,
        style: c.style,
    }
}

/// A verdict that finds nothing wrong but that `gone` is not there.
pub open spec fn misses_only(v: Verdict, gone: Seq<char>) -> bool {
    v is Pass || v == Verdict::Fail(missing_text(gone))
}

/// A key whose last character is that of `.weight`, so that it names neither scales nor a bias.
pub open spec fn weight_like(key: Seq<char>) -> bool {
    key.len() > 0 && key.last() == 't'
}

pub proof fn lemma_norm_without(c: CheckpointView, gone: Seq<char>, key: Seq<char>, dim: nat)
    requires c.norm(key, dim) is Pass,
    ensures misses_only(without(c, gone).norm(key, dim), gone),
{
}

pub proof fn lemma_packing_without(c: CheckpointView, gone: Seq<char>, prefix: Seq<char>, in_features: nat)
    requires
        weight_like(gone),
        gone != prefix + ".weight"@,
        c.packing(prefix, in_features) is Pass,
    ensures
        without(c, gone).quantized(prefix) == c.quantized(prefix),
        without(c, gone).packing(prefix, in_features) is Pass,
{
    reveal_strlit(".scales");
    assert((prefix + ".scales"@).last() == 's');
}

pub proof fn lemma_projection_without(
    c: CheckpointView,
    gone: Seq<char>,
    prefix: Seq<char>,
    out_features: nat,
    in_features: nat,
)
    requires
        c.style == ProjectionStyle::Plain,
        weight_like(gone),
        c.projection(prefix, out_features, in_features) is Pass,
    ensures misses_only(without(c, gone).projection(prefix, out_features, in_features), gone),
{
    if gone != prefix + ".weight"@ {
        lemma_packing_without(c, gone, prefix, in_features);
    }
}

pub proof fn lemma_stacked_without(
    c: CheckpointView,
    gone: Seq<char>,
    prefix: Seq<char>,
    n: nat,
    out_features: nat,
    in_features: nat,
)
    requires
        weight_like(gone),
        c.stacked(prefix, n, out_features, in_features) is Pass,
    ensures misses_only(without(c, gone).stacked(prefix, n, out_features, in_features), gone),
{
    if gone != prefix + ".weight"@ {
        lemma_packing_without(c, gone, prefix, in_features);
    }
}

pub proof fn lemma_mlp_without(c: CheckpointView, gone: Seq<char>, prefix: Seq<char>, hidden: nat, intermediate: nat)
    requires
        c.style == ProjectionStyle::Plain,
        weight_like(gone),
        c.mlp(prefix, hidden, intermediate) is Pass,
    ensures misses_only(without(c, gone).mlp(prefix, hidden, intermediate), gone),
{
    lemma_projection_without(c, gone, prefix + ".gate_proj"@, intermediate, hidden);
    lemma_projection_without(c, gone, prefix + ".up_proj"@, intermediate, hidden);
    lemma_projection_without(c, gone, prefix + ".down_proj"@, hidden, intermediate);
}

} // verus!
