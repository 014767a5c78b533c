//! The keyed asynchronous cell itself: its mathematical state, the
//! transitions the surrounding runtime drives it through, and the read
//! accessors consumers use.

use vstd::prelude::*;

verus! {

/// A value that the cell can duplicate without losing information: the
/// duplicate has the same view as the original.
pub trait Dup: View + Sized {
    fn dup(&self) -> (r: Self)
        ensures
            r@ == self@,
    ;
}

/// A key: duplicable, and comparable for equality on its view.  Deriving a
/// key twice from identical inputs must yield keys with equal views.
pub trait CellKey: Dup {
    fn key_eq(&self, other: &Self) -> (r: bool)
        ensures
            r == (self@ == other@),
    ;
}

impl Dup for String {
    fn dup(&self) -> (r: Self) {
        self.clone()
    }
}

impl CellKey for String {
    fn key_eq(&self, other: &Self) -> (r: bool) {
        <String as PartialEq>::eq(self, other)
    }
}

/// The mathematical state of a cell, over the views of its key and value
/// types.
pub ghost struct CellState<KeyV, ValV> {
    /// View of the key of the most recently dispatched lookup, or `None`
    /// before the first dispatch.
    pub key: Option<KeyV>,
    /// How many lookups have been dispatched so far; the tag carried by the
    /// most recent one.
    pub generation: nat,
    /// View of the most recently accepted lookup result, or `None` while no
    /// accepted lookup has completed.
    pub value: Option<ValV>,
    /// Whether the owning scope is still alive; once torn down, no
    /// transition changes the state.
    pub alive: bool,
}

/// The state of a freshly created cell: no key seen, no value, generation
/// zero, alive.
pub open spec fn init_state<KeyV, ValV>() -> CellState<KeyV, ValV> {
    CellState { key: None, generation: 0, value: None, alive: true }
}

/// Whether presenting key `k` to a cell in state `s` dispatches a new
/// lookup: only while alive, and only when `k` differs from the key of the
/// most recent dispatch.
pub open spec fn dispatches<KeyV, ValV>(s: CellState<KeyV, ValV>, k: KeyV) -> bool {
    s.alive && s.key != Some(k)
}

/// The state after presenting key `k`: on a dispatch the key is recorded
/// and the generation advances; otherwise nothing changes.
pub open spec fn step_key<KeyV, ValV>(s: CellState<KeyV, ValV>, k: KeyV) -> CellState<KeyV, ValV> {
    if dispatches(s, k) {
        CellState { key: Some(k), generation: s.generation + 1, ..s }
    } else {
        s
    }
}

/// Whether a completed lookup tagged with generation `g` may publish its
/// result: only while alive, and only while `g` is still the latest
/// generation.
pub open spec fn accepts<KeyV, ValV>(s: CellState<KeyV, ValV>, g: nat) -> bool {
    s.alive && g == s.generation
}

/// The state after a lookup tagged `g` completes with result `v`: the value
/// is published if the completion is accepted, and dropped silently
/// otherwise.
pub open spec fn step_resolve<KeyV, ValV>(
    s: CellState<KeyV, ValV>,
    g: nat,
    v: ValV,
) -> CellState<KeyV, ValV> {
    if accepts(s, g) {
        CellState { value: Some(v), ..s }
    } else {
        s
    }
}

/// The state after the owning scope ends: everything is kept, but the cell
/// stops accepting transitions.
pub open spec fn step_teardown<KeyV, ValV>(s: CellState<KeyV, ValV>) -> CellState<KeyV, ValV> {
    CellState { alive: false, ..s }
}

/// A lookup dispatch: the key to look up and the generation tag the
/// completion must present to be accepted.
pub struct Dispatch<Key> {
    pub key: Key,
    pub generation: u64,
}

/// A keyed asynchronous cell.
///
/// The surrounding reactive runtime drives it: `on_key` whenever the
/// derived key is (re)computed, `on_resolve` whenever a dispatched lookup
/// produces a value, `teardown` when the owning scope ends.  A lookup that
/// returns a single value calls `on_resolve` once per dispatch; a lookup
/// that writes through a sink calls it once per write, each write gated by
/// the same generation check.
pub struct KeyedSignal<Key, Val> where Key: CellKey, Val: Dup {
    key: Option<Key>,
    generation: u64,
    value: Option<Val>,
    alive: bool,
}

impl<Key, Val> View for KeyedSignal<Key, Val> where Key: CellKey, Val: Dup {
    type V = CellState<Key::V, Val::V>;

    closed spec fn view(&self) -> CellState<Key::V, Val::V> {
        CellState {
            key: match self.key {
                Some(k) => Some(k@),
                None => None,
            },
            generation: self.generation as nat,
            value: match self.value {
                Some(v) => Some(v@),
                None => None,
            },
            alive: self.alive,
        }
    }
}

impl<Key, Val> KeyedSignal<Key, Val> where Key: CellKey, Val: Dup {
    /// Create a cell that has seen no key and holds no value yet.
    pub fn new() -> (r: Self)
        ensures
            r@ == init_state::<Key::V, Val::V>(),
    {
        KeyedSignal { key: None, generation: 0, value: None, alive: true }
    }

    /// Read the current value: `None` until a lookup for the current
    /// generation has completed.
    pub fn get(&self) -> (r: Option<Val>)
        ensures
            r is Some <==> self@.value is Some,
            r matches Some(v) ==> self@.value == Some(v@),
    {
        match &self.value {
            Some(v) => Some(v.dup()),
            None => None,
        }
    }

    /// Read the key of the most recent dispatch.  The reaction that drives
    /// the cell presents the derived key at creation, so in a running
    /// system a key is always present.
    pub fn get_key(&self) -> (r: Key)
        requires
            self@.key is Some,
        ensures
            Some(r@) == self@.key,
    {
        match &self.key {
            Some(k) => k.dup(),
            None => vstd::pervasive::unreached(),
        }
    }

    /// Read the key of the most recent dispatch, or `None` before the
    /// first one.
    pub fn key(&self) -> (r: Option<Key>)
        ensures
            r is Some <==> self@.key is Some,
            r matches Some(k) ==> self@.key == Some(k@),
    {
        match &self.key {
            Some(k) => Some(k.dup()),
            None => None,
        }
    }

    /// Whether another dispatch can still be tagged: the generation
    /// counter has room left.  Callers that cannot see the state test this
    /// before `on_key`.
    pub fn can_advance(&self) -> (r: bool)
        ensures
            r == (self@.generation < u64::MAX),
    {
        self.generation < u64::MAX
    }

    /// The derived key was (re)computed as `k`: dispatch a new lookup if
    /// and only if the cell is alive and `k` differs from the key of the
    /// most recent dispatch.  Returns the dispatch the caller must run,
    /// whose completion hands its generation tag back to `on_resolve`.
    pub fn on_key(&mut self, k: Key) -> (r: Option<Dispatch<Key>>)
        requires
            old(self)@.generation < u64::MAX,
        ensures
            final(self)@ == step_key(old(self)@, k@),
            !dispatches(old(self)@, k@) ==> r is None,
            dispatches(old(self)@, k@) ==> (r matches Some(d) && d.key@ == k@
                && d.generation as nat == old(self)@.generation + 1),
    {
        if !self.alive {
            return None;
        }
        let unchanged = match &self.key {
            Some(cur) => cur.key_eq(&k),
            None => false,
        };
        if unchanged {
            None
        } else {
            self.key = Some(k.dup());
            self.generation = self.generation + 1;
            Some(Dispatch { key: k, generation: self.generation })
        }
    }

    /// A lookup tagged with generation `g` produced the value `v`: publish
    /// it if the cell is alive and `g` is still the latest generation, and
    /// drop it silently otherwise.  A sink-shaped lookup calls this once
    /// per write, with the same tag each time.
    pub fn on_resolve(&mut self, g: u64, v: Val)
        ensures
            final(self)@ == step_resolve(old(self)@, g as nat, v@),
    {
        if self.alive && g == self.generation {
            self.value = Some(v);
        }
    }

    /// The owning scope ended: keep the state but stop accepting
    /// transitions, so an orphaned lookup's eventual completion mutates
    /// nothing.
    pub fn teardown(&mut self)
        ensures
            final(self)@ == step_teardown(old(self)@),
    {
        self.alive = false;
    }
}

} // verus!
