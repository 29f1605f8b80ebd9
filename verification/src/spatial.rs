//! Spatial decisions: what kind of listener an entity is, which listener is
//! nearest to an emitter, and where an effect takes its position from.
//!
//! Multiple listeners are supported; the closest listener is selected for
//! distance calculations.

use vstd::prelude::*;

verus! {

/// A 2D spatial listener.
///
/// Offsets to 2D listeners ignore the z component.
#[derive(Debug, Default, Clone, Copy, PartialEq, Eq)]
pub struct SpatialListener2D;

/// A 3D spatial listener.
#[derive(Debug, Default, Clone, Copy, PartialEq, Eq)]
pub struct SpatialListener3D;

/// The kind of a spatial listener.
#[derive(Debug, Clone, Copy, PartialEq, Eq)]
pub enum SpatialKind {
    Listener2D,
    Listener3D,
}

impl SpatialKind {
    /// The kind of a listener entity, given the 2D and the 3D listener
    /// components it carries. An entity carries exactly one of them.
    pub fn from(value: (Option<&SpatialListener2D>, Option<&SpatialListener3D>)) -> (r: Self)
        requires
            value.0 is Some != value.1 is Some,
        ensures
            value.0 is Some ==> r == SpatialKind::Listener2D,
            value.1 is Some ==> r == SpatialKind::Listener3D,
    {
        match value {
            (Some(_), _) => SpatialKind::Listener2D,
            (_, _) => SpatialKind::Listener3D,
        }
    }
}

/// The rank of the `f32` whose bit pattern is `bits` in the order of
/// `f32::total_cmp`: non-negative values rank by their bits, negative values
/// below them, in reverse order of their magnitude bits (so `-0.0 < +0.0`).
pub open spec fn total_order_key(bits: u32) -> int {
    if bits < 0x8000_0000u32 {
        bits as int
    } else {
        0x7fff_ffff - bits
    }
}

/// Computes [`total_order_key`] of the `f32` with bit pattern `bits`.
pub fn f32_total_order_key(bits: u32) -> (r: i64)
    ensures
        r == total_order_key(bits),
        bits < 0x8000_0000u32 ==> r == bits,
        bits >= 0x8000_0000u32 ==> r == 0x7fff_ffff - bits,
{
    if bits < 0x8000_0000u32 {
        bits as i64
    } else {
        0x7fff_ffffi64 - bits as i64
    }
}

/// `i` indexes the nearest of the listeners whose squared distances (as `f32`
/// bit patterns) are `distances`: no listener is nearer under
/// `f32::total_cmp`, and every listener before it is strictly farther.
pub open spec fn is_nearest(distances: Seq<u32>, i: int) -> bool {
    &&& 0 <= i < distances.len()
    &&& forall|j: int|
        0 <= j < distances.len() ==> total_order_key(distances[i]) <= total_order_key(
            #[trigger] distances[j],
        )
    &&& forall|j: int|
        0 <= j < i ==> total_order_key(#[trigger] distances[j]) > total_order_key(distances[i])
}

/// Fetch the nearest spatial listener, if any exist.
///
/// `distances_squared[k]` is the bit pattern of the `f32` squared distance
/// from the emitter to listener `k` (in a 2D context measured without the z
/// component). The result is the index of the smallest distance under
/// `f32::total_cmp`, the first one where several are equally small, and
/// `None` when there are no listeners.
pub fn nearest_listener(distances_squared: &[u32]) -> (r: Option<usize>)
    ensures
        r is None <==> distances_squared@.len() == 0,
        r matches Some(i) ==> is_nearest(distances_squared@, i as int),
{
    let n = distances_squared.len();
    if n == 0 {
        return None;
    }
    let mut best: usize = 0;
    let mut best_key: i64 = f32_total_order_key(distances_squared[0]);
    let mut k: usize = 1;
    while k < n
        invariant
            n == distances_squared@.len(),
            1 <= k <= n,
            best < k,
            best_key == total_order_key(distances_squared@[best as int]),
            forall|j: int|
                0 <= j < k ==> total_order_key(distances_squared@[best as int]) <= total_order_key(
                    #[trigger] distances_squared@[j],
                ),
            forall|j: int|
                0 <= j < best ==> total_order_key(#[trigger] distances_squared@[j])
                    > total_order_key(distances_squared@[best as int]),
        decreases n - k,
    {
        let key = f32_total_order_key(distances_squared[k]);
        if key < best_key {
            best = k;
            best_key = key;
        }
        k = k + 1;
    }
    Some(best)
}

/// The nearest listener is well defined: at most one index is the nearest.
pub proof fn lemma_nearest_unique(distances: Seq<u32>, i: int, j: int)
    requires
        is_nearest(distances, i),
        is_nearest(distances, j),
    ensures
        i == j,
{
    if i < j {
        assert(total_order_key(distances[i]) > total_order_key(distances[j]));
        assert(total_order_key(distances[j]) <= total_order_key(distances[i]));
    } else if j < i {
        assert(total_order_key(distances[j]) > total_order_key(distances[i]));
        assert(total_order_key(distances[i]) <= total_order_key(distances[j]));
    }
}

/// `f32::total_cmp` is a total order in which only identical bit patterns
/// compare equal: distinct patterns get distinct ranks.
pub proof fn lemma_total_order_key_injective(a: u32, b: u32)
    requires
        total_order_key(a) == total_order_key(b),
    ensures
        a == b,
{
}

/// Squared distances are never negative, and on non-negative `f32` values
/// (sign bit clear) `f32::total_cmp` orders by the bit pattern.
pub proof fn lemma_non_negative_order_by_bits(a: u32, b: u32)
    requires
        a < 0x8000_0000u32,
        b < 0x8000_0000u32,
    ensures
        total_order_key(a) <= total_order_key(b) <==> a <= b,
{
}

/// On values with the sign bit set `f32::total_cmp` reverses the order of the
/// bit patterns: a larger magnitude is a more negative number.
pub proof fn lemma_negative_order_reversed(a: u32, b: u32)
    requires
        a >= 0x8000_0000u32,
        b >= 0x8000_0000u32,
    ensures
        total_order_key(a) <= total_order_key(b) <==> a >= b,
{
}

/// Under `f32::total_cmp` every value with the sign bit set (negative
/// numbers, `-0.0`, negative NaNs) sorts below every value without it.
pub proof fn lemma_negative_below_non_negative(a: u32, b: u32)
    requires
        a >= 0x8000_0000u32,
        b < 0x8000_0000u32,
    ensures
        total_order_key(a) < total_order_key(b),
{
}

/// Where an effect's position comes from.
#[derive(Debug, PartialEq, Eq)]
pub enum EffectTransformSource<T, P> {
    /// The effect's own global transform.
    Own(T),
    /// The global transform of the entity the effect belongs to.
    Parent(P),
}

/// Chooses where an effect's position comes from, given its own global
/// transform and the link to the entity it is an effect of (an effect carries
/// at least one of them): its own transform wins where it has one.
pub fn extract_effect_transform<T, P>(effect_transform: (Option<T>, Option<P>)) -> (r:
    EffectTransformSource<T, P>)
    requires
        effect_transform.0 is Some || effect_transform.1 is Some,
    ensures
        effect_transform.0 matches Some(t) ==> r == EffectTransformSource::<T, P>::Own(t),
        effect_transform.0 is None ==> r == EffectTransformSource::<T, P>::Parent(
            effect_transform.1->0,
        ),
{
    match effect_transform.0 {
        Some(global) => EffectTransformSource::Own(global),
        None => EffectTransformSource::Parent(effect_transform.1.unwrap()),
    }
}

} // verus!
