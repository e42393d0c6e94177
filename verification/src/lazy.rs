use std::sync::atomic::AtomicU64;
use std::sync::atomic::Ordering;
use vstd::prelude::*;

verus! {

/// The value a lazily initialized cell computes on first use.
pub const LAZY_VALUE: u64 = 42;

/// What a read of a lazily initialized cell came to.
#[derive(Debug, Clone, Copy, PartialEq, Eq, Structural)]
pub enum LazyValue {
    /// The cell already held this value.
    Cached(u64),
    /// The cell was still 0, so this value was computed and stored.
    Computed(u64),
}

impl LazyValue {
    /// The value itself, whichever way it was obtained.
    pub fn value(&self) -> (v: u64)
        ensures
            v == lazy_value_of(*self),
            self matches LazyValue::Cached(x) ==> v == x,
            self matches LazyValue::Computed(x) ==> v == x,
    {
        match self {
            LazyValue::Cached(v) => *v,
            LazyValue::Computed(v) => *v,
        }
    }
}

/// The value carried by a `LazyValue`.
pub open spec fn lazy_value_of(l: LazyValue) -> u64 {
    match l {
        LazyValue::Cached(v) => v,
        LazyValue::Computed(v) => v,
    }
}

/// The outcome for a cell observed to hold `observed`, where 0 means
/// "not computed yet".
pub open spec fn lazy_outcome(observed: u64) -> LazyValue {
    if observed == 0 {
        LazyValue::Computed(LAZY_VALUE)
    } else {
        LazyValue::Cached(observed)
    }
}

/// Decides, for a cell observed to hold `observed`, whether to compute.
pub fn resolve_lazy(observed: u64) -> (r: LazyValue)
    ensures
        r == lazy_outcome(observed),
{
    if observed == 0 {
        LazyValue::Computed(LAZY_VALUE)
    } else {
        LazyValue::Cached(observed)
    }
}

/// Reads the cell `x`, computing and storing the value when the cell still
/// holds 0. Two threads may both find 0 and both compute; either way the
/// value returned is never 0, and a computed value is `LAZY_VALUE`.
pub fn lazy_init(x: &AtomicU64) -> (r: LazyValue)
    ensures
        lazy_value_of(r) != 0,
        r matches LazyValue::Computed(v) ==> v == LAZY_VALUE && lazy_value_of(r) == LAZY_VALUE,
        r matches LazyValue::Cached(v) ==> lazy_value_of(r) == v,
{
    let observed = x.load(Ordering::Relaxed);
    let r = resolve_lazy(observed);
    if let LazyValue::Computed(v) = r {
        x.store(v, Ordering::Relaxed);
    }
    r
}

/// Once computed, a value is kept: reading a cell that holds a value other
/// than 0 returns that value, and the value stored on first use is itself
/// read back as cached.
pub proof fn lemma_lazy_idempotent(observed: u64)
    ensures
        lazy_value_of(lazy_outcome(observed)) != 0,
        lazy_outcome(lazy_value_of(lazy_outcome(observed)))
            == LazyValue::Cached(lazy_value_of(lazy_outcome(observed))),
{
}

/// A value read is the value carried, whichever way it was obtained: a
/// computed value is reported exactly as computed (and stored), and a cached
/// value exactly as found in the cell.
pub proof fn lemma_value_is_payload(x: u64)
    ensures
        lazy_value_of(LazyValue::Computed(x)) == x,
        lazy_value_of(LazyValue::Cached(x)) == x,
{
}

/// The first read of a cell (still 0) reports `LAZY_VALUE`, and every later
/// read of the cell that now holds what was stored reports the same value:
/// all reads of a cell agree, whether they computed or found the value.
pub proof fn lemma_first_and_later_reads_agree()
    ensures
        lazy_outcome(0) == LazyValue::Computed(LAZY_VALUE),
        lazy_value_of(lazy_outcome(0)) == LAZY_VALUE,
        lazy_value_of(lazy_outcome(LAZY_VALUE)) == lazy_value_of(lazy_outcome(0)),
        forall|observed: u64|
            observed != 0 ==> #[trigger] lazy_value_of(lazy_outcome(observed)) == observed,
{
}

} // verus!
