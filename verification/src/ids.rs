use std::sync::atomic::AtomicU32;
use std::sync::atomic::Ordering;
use vstd::prelude::*;

verus! {

/// The number of ids an allocator hands out: ids are `0 .. MAX_IDS`.
pub const MAX_IDS: u32 = 1000;

/// Why no id could be handed out.
#[derive(Debug, Clone, Copy, PartialEq, Eq, Structural)]
pub enum IdError {
    /// Every id below `MAX_IDS` was already handed out.
    TooManyIds,
}

/// The id that an observed counter value grants, if any.
pub open spec fn granted_id(observed: u32) -> Result<u32, IdError> {
    if observed < MAX_IDS {
        Ok(observed)
    } else {
        Err(IdError::TooManyIds)
    }
}

/// Decides what a caller gets once an increment of the counter returned
/// `observed`, the counter's value before the increment.
pub fn admit_id(observed: u32) -> (r: Result<u32, IdError>)
    ensures
        r == granted_id(observed),
{
    if observed < MAX_IDS {
        Ok(observed)
    } else {
        Err(IdError::TooManyIds)
    }
}

/// Hands out the next id of the shared counter `next_id`.
///
/// The counter is incremented first; when the value it held was already
/// `MAX_IDS` or more, the increment is undone and `TooManyIds` is returned.
/// Which value the increment observes depends on the other threads that
/// share the counter, so the contract states what holds of every outcome.
pub fn allocate_new_id(next_id: &AtomicU32) -> (r: Result<u32, IdError>)
    ensures
        r matches Ok(id) ==> id < MAX_IDS,
{
    let observed = next_id.fetch_add(1, Ordering::Relaxed);
    let r = admit_id(observed);
    if r.is_err() {
        next_id.fetch_sub(1, Ordering::Relaxed);
    }
    r
}

/// The value that a claim of `observed` writes to the counter: the next
/// value, and only while `observed` is still below `MAX_IDS`.
pub open spec fn claim_target(observed: u32) -> Result<u32, IdError> {
    if observed < MAX_IDS {
        Ok((observed + 1) as u32)
    } else {
        Err(IdError::TooManyIds)
    }
}

/// Decides, for a counter last seen at `observed`, which value a claim
/// tries to write, or that every id is taken.
pub fn next_claim(observed: u32) -> (r: Result<u32, IdError>)
    ensures
        r == claim_target(observed),
{
    if observed < MAX_IDS {
        Ok(observed + 1)
    } else {
        Err(IdError::TooManyIds)
    }
}

/// What one compare-and-exchange attempt on the counter came to.
#[derive(Debug, Clone, Copy, PartialEq, Eq, Structural)]
pub enum Claim {
    /// The counter moved from the observed value to the next one: the
    /// observed value is the caller's id.
    Claimed(u32),
    /// The counter did not hold the observed value (or the exchange failed
    /// spuriously); the payload is the value it held, to be tried next.
    Contended(u32),
}

/// One attempt of the bounded allocator: when the caller last saw the
/// counter at `observed`, try to move it to `observed + 1`.
///
/// Ids are refused once `observed` reaches `MAX_IDS`, before anything is
/// written, so the counter is never moved past `MAX_IDS` by this function.
/// Whether the exchange succeeds depends on the other threads; the
/// contract says what holds either way. A caller repeats the attempt with
/// the value carried by `Contended` until it gets `Claimed` or an error.
pub fn claim_id_weak(next_id: &AtomicU32, observed: u32) -> (r: Result<Claim, IdError>)
    ensures
        observed >= MAX_IDS ==> r == Err::<Claim, IdError>(IdError::TooManyIds),
        observed < MAX_IDS ==> r is Ok,
        r matches Ok(Claim::Claimed(id)) ==> id == observed && id < MAX_IDS,
{
    let next = match next_claim(observed) {
        Ok(next) => next,
        Err(e) => return Err(e),
    };
    match next_id.compare_exchange_weak(observed, next, Ordering::Relaxed, Ordering::Relaxed) {
        Ok(_) => Ok(Claim::Claimed(observed)),
        Err(current) => Ok(Claim::Contended(current)),
    }
}

/// The value an increment of a counter at `c` writes.
pub fn successor(c: u32) -> (n: u32)
    requires
        c < u32::MAX,
    ensures
        n == c + 1,
{
    c + 1
}

/// One attempt of an unbounded increment: when the caller last saw the
/// counter at `current`, try to move it to `current + 1`. `Err` carries the
/// value the counter held instead, to be tried next.
pub fn try_increment(counter: &AtomicU32, current: u32) -> (r: Result<(), u32>)
    requires
        current < u32::MAX,
    ensures
        r matches Err(v) ==> v != current,
{
    let next = successor(current);
    match exchange_u32(counter, current, next) {
        Ok(_) => Ok(()),
        Err(v) => Err(v),
    }
}

/// Stores `new` in `atomic` when it holds `current`, returning the value it
/// held before.
///
/// Trusted: `AtomicU32::compare_exchange` (relaxed ordering). Its
/// documentation says that on success the returned previous value equals
/// `current`, and that it fails only when the value held is not `current`,
/// returning that value. Which of the two happens depends on other threads,
/// and is left unsaid.
#[verifier::external_body]
fn exchange_u32(atomic: &AtomicU32, current: u32, new: u32) -> (r: Result<u32, u32>)
    ensures
        r matches Ok(v) ==> v == current,
        r matches Err(v) ==> v != current,
{
    atomic.compare_exchange(current, new, Ordering::Relaxed, Ordering::Relaxed)
}

/// The bounded allocator never writes a value above `MAX_IDS` to the
/// counter: a claim writes only the successor of a value below `MAX_IDS`.
pub proof fn lemma_claim_never_exceeds_max(observed: u32)
    ensures
        claim_target(observed) matches Ok(n) ==> n == observed + 1 && n <= MAX_IDS,
        claim_target(observed) is Err <==> granted_id(observed) is Err,
{
}

/// Every id that an increment can grant lies below `MAX_IDS`, and each
/// counter value grants at most itself: two increments that observed
/// different values never grant the same id.
pub proof fn lemma_granted_ids_distinct(a: u32, b: u32)
    ensures
        granted_id(a) matches Ok(id) ==> id == a && id < MAX_IDS,
        a != b && granted_id(a) is Ok && granted_id(b) is Ok ==> granted_id(a) != granted_id(b),
{
}

} // verus!
