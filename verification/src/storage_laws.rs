//! What is put into a checkpoint, a record of answers, a list of steps or a cache comes out again, and
//! nothing else is touched by it.
use vstd::prelude::*;
use vstd::string::*;
use crate::baichuan::ConvStates;
use crate::bailing_moe_linear::{BailingLinearCache, KvCache, LinearAttentionCache, Snapshot};
use crate::steps::{Step, StepKind, Steps};
use crate::weights::{PackingAnswers, WeightMap};

verus! {

/// A stored shape is found under its name; what is found under any other name is what was found before.
pub proof fn stored_shapes_are_found(w: &mut WeightMap, name: String, shape: Vec<i32>, other: &str, r: Option<&Vec<i32>>)
    requires
        call_ensures(WeightMap::insert, (w, name, shape), ()),
        call_ensures(WeightMap::get, (final(w), other), r),
    ensures
        other@ == name@ ==> (r matches Some(s) && s@ == shape@),
        other@ != name@ && old(w)@.contains_key(other@) ==> (r matches Some(s) && s@ == old(w)@[other@]),
        other@ != name@ && !old(w)@.contains_key(other@) ==> r is None,
{
}

/// A shape that was taken out is gone; every other one stays.
pub proof fn removed_shapes_are_gone(w: &mut WeightMap, name: &str, other: &str, r: bool)
    requires
        call_ensures(WeightMap::remove, (w, name), ()),
        call_ensures(WeightMap::contains_key, (final(w), other), r),
    ensures
        other@ == name@ ==> !r,
        other@ != name@ ==> (r <==> old(w)@.contains_key(other@)),
{
}

/// A copy of a shape has its axes.
pub proof fn shapes_are_copied(v: Vec<i32>, r: Vec<i32>, i: int)
    requires
        call_ensures(crate::weights::copy_shape, (&v,), r),
        0 <= i < v@.len(),
    ensures
        r@.len() == v@.len(),
        r@[i] == v@[i],
{
}

/// An accepted packing is on record as accepted, and changes no other answer.
pub proof fn accepted_packings_are_on_record(a: &mut PackingAnswers, prefix: String, other: &str, r: Option<&Option<String>>)
    requires
        call_ensures(PackingAnswers::accept, (a, prefix), ()),
        call_ensures(PackingAnswers::get, (final(a), other), r),
    ensures
        other@ == prefix@ ==> (r matches Some(e) && *e is None),
        other@ != prefix@ ==> (r is Some <==> old(a)@.contains_key(other@)),
{
}

/// A refused packing is on record with its error, and changes no other answer.
pub proof fn refused_packings_are_on_record(
    a: &mut PackingAnswers,
    prefix: String,
    error: String,
    other: &str,
    r: Option<&Option<String>>,
)
    requires
        call_ensures(PackingAnswers::refuse, (a, prefix, error), ()),
        call_ensures(PackingAnswers::get, (final(a), other), r),
    ensures
        other@ == prefix@ ==> (r matches Some(e) && (*e matches Some(f) && f@ == error@)),
        other@ != prefix@ ==> (r is Some <==> old(a)@.contains_key(other@)),
{
}

/// A step is added behind all others, which stay as they are.
pub proof fn steps_are_added_at_the_end(s: &mut Steps, kind: StepKind, key: String, n: usize, last: &Step, i: usize, earlier: &Step)
    requires
        call_ensures(Steps::push, (s, kind, key), ()),
        call_ensures(Steps::len, (final(s),), n),
        n > 0,
        call_ensures(Steps::get, (final(s), (n - 1) as usize), last),
        i < n - 1,
        call_ensures(Steps::get, (final(s), i), earlier),
    ensures
        n == old(s)@.len() + 1,
        last.kind == kind && last.key@ == key@,
        earlier.kind == old(s)@[i as int].kind && earlier.key@ == old(s)@[i as int].key,
{
}

/// Forgetting what every layer carries keeps the layers.
pub proof fn resetting_keeps_the_layers<T>(c: &mut ConvStates<T>, i: int)
    requires
        call_ensures(ConvStates::<T>::reset_conv_states, (c,), ()),
        0 <= i < old(c).states@.len(),
    ensures
        final(c).states@.len() == old(c).states@.len(),
        final(c).states@[i] is None,
{
}

/// A linear cache holds the state that it was given last, as many tokens further on.
pub proof fn linear_caches_advance<T>(c: &mut LinearAttentionCache<T>, state: T, length: i32)
    requires
        call_ensures(LinearAttentionCache::<T>::advance, (c, state, length), ()),
    ensures
        final(c).state == Some(state),
        final(c).offset == old(c).offset + length,
{
}

/// Fresh caches hold nothing and stand at the beginning.
pub proof fn fresh_caches_hold_nothing<T>(k: KvCache<T>, l: LinearAttentionCache<T>)
    requires
        call_ensures(KvCache::<T>::new, (), k),
        call_ensures(LinearAttentionCache::<T>::new, (), l),
    ensures
        k.keys is None && k.values is None && k.offset == 0,
        l.state is None && l.offset == 0,
{
}

/// A tensor that was put into a snapshot is found under its name; nothing is put where there is none,
/// and what is found under any other name is what was found before.
pub proof fn snapshot_tensors_are_found<T: Copy>(
    s: &mut Snapshot<T>,
    key: String,
    value: Option<T>,
    other: &str,
    before: Option<T>,
    r: Option<T>,
)
    requires
        call_ensures(Snapshot::<T>::restore_optional, (&*old(s), other), before),
        call_ensures(Snapshot::<T>::push_optional, (s, key, value), ()),
        call_ensures(Snapshot::<T>::restore_optional, (final(s), other), r),
    ensures
        other@ == key@ && value is Some ==> r == value,
        other@ != key@ || value is None ==> r == before,
{
}

/// A cache that was put into an empty snapshot comes back out of it into a cache of its kind: its tensors
/// as they were, at the position that the snapshot was taken at.
pub proof fn caches_come_back_out_of_a_snapshot<T: Copy>(
    cache: BailingLinearCache<T>,
    family: &str,
    token_len: usize,
    s: &mut Snapshot<T>,
    prefix: &str,
    back: &mut BailingLinearCache<T>,
)
    requires
        token_len <= i32::MAX,
        call_ensures(Snapshot::<T>::new, (family, token_len), *old(s)),
        call_ensures(BailingLinearCache::<T>::snapshot_into, (&cache, s, prefix), ()),
        call_ensures(BailingLinearCache::<T>::restore_from, (back, final(s), prefix), ()),
        *old(back) is Attention <==> cache is Attention,
    ensures
        match cache {
            BailingLinearCache::Attention(kv) => *final(back) == BailingLinearCache::Attention(
                KvCache { keys: kv.keys, values: kv.values, offset: token_len as i32 },
            ),
            BailingLinearCache::Linear(l) => *final(back) == BailingLinearCache::Linear(
                LinearAttentionCache { state: l.state, offset: token_len as i32 },
            ),
        },
{
    reveal_strlit(".attention.keys");
    reveal_strlit(".attention.values");
    assert((prefix@ + ".attention.keys"@).len() != (prefix@ + ".attention.values"@).len());
}

} // verus!
