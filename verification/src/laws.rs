//! Laws of the keyed asynchronous cell, stated over its mathematical state.

use vstd::prelude::*;

use crate::cell::{accepts, dispatches, step_key, step_resolve, step_teardown, CellState};

verus! {

/// The state after presenting each key of `ks` in turn, left to right.
pub open spec fn run_keys<KeyV, ValV>(
    s: CellState<KeyV, ValV>,
    ks: Seq<KeyV>,
) -> CellState<KeyV, ValV>
    decreases ks.len(),
{
    if ks.len() == 0 {
        s
    } else {
        run_keys(step_key(s, ks[0]), ks.drop_first())
    }
}

/// How many of the keys of `ks`, presented in turn, dispatch a lookup.
pub open spec fn dispatch_count<KeyV, ValV>(s: CellState<KeyV, ValV>, ks: Seq<KeyV>) -> nat
    decreases ks.len(),
{
    if ks.len() == 0 {
        0
    } else {
        (if dispatches(s, ks[0]) {
            1nat
        } else {
            0nat
        }) + dispatch_count(step_key(s, ks[0]), ks.drop_first())
    }
}

/// Re-deriving an unchanged key is a no-op: it dispatches no lookup and
/// leaves the cell's state exactly as it was.
pub proof fn lemma_rederive_unchanged<KeyV, ValV>(s: CellState<KeyV, ValV>, k: KeyV)
    requires
        s.key == Some(k),
    ensures
        !dispatches(s, k),
        step_key(s, k) == s,
{
}

/// Memoization: a run of key derivations that all yield the same key
/// dispatches at most one lookup.
pub proof fn lemma_memoization<KeyV, ValV>(s: CellState<KeyV, ValV>, ks: Seq<KeyV>, k: KeyV)
    requires
        forall|i: int| 0 <= i < ks.len() ==> ks[i] == k,
    ensures
        dispatch_count(s, ks) <= 1,
    decreases ks.len(),
{
    if ks.len() > 0 {
        let s1 = step_key(s, ks[0]);
        if dispatches(s, ks[0]) {
            assert(s1.key == Some(k));
            lemma_no_dispatch_on_current(s1, ks.drop_first(), k);
        } else {
            assert(s1 == s);
            lemma_memoization(s, ks.drop_first(), k);
        }
    }
}

/// A run of key derivations that all yield the key of the most recent
/// dispatch changes nothing and dispatches nothing.
pub proof fn lemma_no_dispatch_on_current<KeyV, ValV>(
    s: CellState<KeyV, ValV>,
    ks: Seq<KeyV>,
    k: KeyV,
)
    requires
        s.key == Some(k),
        forall|i: int| 0 <= i < ks.len() ==> ks[i] == k,
    ensures
        dispatch_count(s, ks) == 0,
        run_keys(s, ks) == s,
    decreases ks.len(),
{
    if ks.len() > 0 {
        lemma_rederive_unchanged(s, ks[0]);
        lemma_no_dispatch_on_current(s, ks.drop_first(), k);
    }
}

/// Key derivations alone never publish a value: whatever run of keys the
/// cell is driven through, the value stays what it was.  In particular a
/// freshly created cell reads as absent until a lookup completes.
pub proof fn lemma_keys_preserve_value<KeyV, ValV>(s: CellState<KeyV, ValV>, ks: Seq<KeyV>)
    ensures
        run_keys(s, ks).value == s.value,
    decreases ks.len(),
{
    if ks.len() > 0 {
        lemma_keys_preserve_value(step_key(s, ks[0]), ks.drop_first());
    }
}

/// The state after the completions of `cs` arrive in turn, each carrying
/// its generation tag and its result.
pub open spec fn run_resolves<KeyV, ValV>(
    s: CellState<KeyV, ValV>,
    cs: Seq<(nat, ValV)>,
) -> CellState<KeyV, ValV>
    decreases cs.len(),
{
    if cs.len() == 0 {
        s
    } else {
        run_resolves(step_resolve(s, cs[0].0, cs[0].1), cs.drop_first())
    }
}

/// Of the completions of `cs`, the result of the last one that a live cell
/// at generation `g` accepts, if any.
pub open spec fn last_accepted<ValV>(g: nat, alive: bool, cs: Seq<(nat, ValV)>) -> Option<ValV>
    decreases cs.len(),
{
    if cs.len() == 0 {
        None
    } else {
        let rest = last_accepted(g, alive, cs.drop_first());
        if rest is Some {
            rest
        } else if alive && cs[0].0 == g {
            Some(cs[0].1)
        } else {
            None
        }
    }
}

/// Writes are linearized by generation: completions touch nothing but the
/// value, so a burst of them, in whatever order it arrives, leaves the
/// result of the last completion carrying the latest generation — or the
/// previous value, if the burst carries none.
pub proof fn lemma_burst_linearized<KeyV, ValV>(s: CellState<KeyV, ValV>, cs: Seq<(nat, ValV)>)
    ensures
        run_resolves(s, cs).key == s.key,
        run_resolves(s, cs).generation == s.generation,
        run_resolves(s, cs).alive == s.alive,
        run_resolves(s, cs).value == (match last_accepted(s.generation, s.alive, cs) {
            Some(v) => Some(v),
            None => s.value,
        }),
    decreases cs.len(),
{
    if cs.len() > 0 {
        lemma_burst_linearized(step_resolve(s, cs[0].0, cs[0].1), cs.drop_first());
    }
}

/// Last write wins: after two dispatched lookups for different keys, the
/// value left once both have completed is the second lookup's result,
/// whichever completion arrives first.
pub proof fn lemma_last_write_wins<KeyV, ValV>(
    s: CellState<KeyV, ValV>,
    k1: KeyV,
    k2: KeyV,
    v1: ValV,
    v2: ValV,
)
    requires
        dispatches(s, k1),
        k1 != k2,
    ensures
        ({
            let s1 = step_key(s, k1);
            let s2 = step_key(s1, k2);
            let g1 = s1.generation;
            let g2 = s2.generation;
            &&& dispatches(s1, k2)
            &&& step_resolve(step_resolve(s2, g1, v1), g2, v2).value == Some(v2)
            &&& step_resolve(step_resolve(s2, g2, v2), g1, v1).value == Some(v2)
        }),
{
}

/// No write after teardown: once the owning scope has ended, a completing
/// lookup changes nothing, whatever generation it carries.
pub proof fn lemma_no_write_after_teardown<KeyV, ValV>(s: CellState<KeyV, ValV>, g: nat, v: ValV)
    ensures
        step_resolve(step_teardown(s), g, v) == step_teardown(s),
{
}

/// An accepted completion publishes exactly its value and changes nothing
/// else; a stale or orphaned completion changes nothing at all.
pub proof fn lemma_resolve_exact<KeyV, ValV>(s: CellState<KeyV, ValV>, g: nat, v: ValV)
    ensures
        accepts(s, g) ==> step_resolve(s, g, v) == (CellState { value: Some(v), ..s }),
        !accepts(s, g) ==> (step_resolve(s, g, v) == s),
{
}

} // verus!
