//! The runtime shape that the rewrite relies on, in miniature: one
//! memoization slot is a single-assignment optional cell with get-or-compute
//! semantics. A rewritten method evaluates its original body only when the
//! slot is still empty; the slot then holds that first value for the rest of
//! the object's lifetime. The laws below pin down what that buys: repeated
//! calls observe the first value, and nested cached calls memoize
//! independently.

use vstd::prelude::*;

verus! {

/// A slot's contents after one call that would compute `computed` now: the
/// first value wins, later computations are discarded unevaluated.
pub open spec fn slot_after<T>(s: Option<T>, computed: T) -> Option<T> {
    match s {
        Some(v) => Some(v),
        None => Some(computed),
    }
}

/// What one call returns: the stored value if the slot is filled, otherwise
/// the freshly computed one.
pub open spec fn slot_result<T>(s: Option<T>, computed: T) -> T {
    match s {
        Some(v) => v,
        None => computed,
    }
}

/// One memoization slot: a lazily-initialized cell populated at most once.
pub struct CacheSlot<T> {
    value: Option<T>,
}

impl<T> View for CacheSlot<T> {
    type V = Option<T>;

    closed spec fn view(&self) -> Option<T> {
        self.value
    }
}

impl<T> CacheSlot<T> {
    /// A fresh slot, not yet computed.
    pub fn empty() -> (r: CacheSlot<T>)
        ensures
            r@ is None,
    {
        CacheSlot { value: None }
    }
}

impl<T> Default for CacheSlot<T> {
    /// Every slot of a default-constructed companion aggregate is empty.
    fn default() -> (r: CacheSlot<T>)
        ensures
            r@ is None,
    {
        CacheSlot { value: None }
    }
}

impl<T: Copy> CacheSlot<T> {
    /// One call of a rewritten method, with `computed` the value its original
    /// body yields on the object's current fields: fills the slot on first
    /// use, and returns the stored value ever after.
    pub fn get_or_init(&mut self, computed: T) -> (r: T)
        ensures
            final(self)@ == slot_after(old(self)@, computed),
            r == slot_result(old(self)@, computed),
    {
        match self.value {
            Some(v) => v,
            None => {
                self.value = Some(computed);
                computed
            },
        }
    }
}

/// One call of a rewritten outer method whose body calls another cached
/// method on the same object: the inner slot is consulted first (`ci` being
/// the value the inner body would compute now), then `f` of the inner result
/// is memoized in the outer slot. Yields both slots' new contents and the
/// outer result.
pub open spec fn nested_call<T>(inner: Option<T>, outer: Option<T>, ci: T, f: spec_fn(T) -> T) -> (
    Option<T>,
    Option<T>,
    T,
) {
    (
        slot_after(inner, ci),
        slot_after(outer, f(slot_result(inner, ci))),
        slot_result(outer, f(slot_result(inner, ci))),
    )
}

/// Rewriting is idempotent on the observable cached value: a second call of
/// a rewritten method returns exactly what the first call returned, even if
/// the fields its body reads were mutated in between (`c2` need not equal
/// `c1`).
pub proof fn lemma_second_call_same_value<T>(s: Option<T>, c1: T, c2: T)
    ensures
        slot_result(slot_after(s, c1), c2) == slot_result(s, c1),
{
}

/// A cached method whose body calls another cached method on the same object
/// composes correctly: the inner memoization is independent of and
/// unaffected by the outer call's own memoization. After one outer call the
/// inner slot is exactly what a direct inner call alone leaves behind, a
/// later direct inner call returns the same value whatever the inner body
/// would compute by then, and a repeated outer call changes no slot and
/// returns the same result.
pub proof fn lemma_nested_memoization_independent<T>(
    inner: Option<T>,
    outer: Option<T>,
    ci: T,
    ci2: T,
    f: spec_fn(T) -> T,
)
    ensures
        ({
            let (i1, o1, r1) = nested_call(inner, outer, ci, f);
            &&& i1 == slot_after(inner, ci)
            &&& slot_result(i1, ci2) == slot_result(inner, ci)
            &&& nested_call(i1, o1, ci2, f) == (i1, o1, r1)
        }),
{
}

} // verus!
