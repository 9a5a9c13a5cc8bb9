use vstd::prelude::*;

use crate::mouse::Mouse;

verus! {

/// The sequence `mouses` without `mouse`. When `mouse` occurs once, this drops
/// exactly that occurrence and keeps the order of the others.
pub open spec fn without_mouse(mouses: Seq<Mouse>, mouse: Mouse) -> Seq<Mouse> {
    if mouses.contains(mouse) {
        mouses.remove(mouses.index_of(mouse))
    } else {
        mouses
    }
}

/// Keeps track of some state (such as the position and the pressed buttons) of
/// each mouse that hovers over the application. Mouses are kept in the order in
/// which they were added, and each mouse occurs at most once.
pub struct MouseStore<S> {
    // A plain list rather than a map, because there are very few mouses.
    mouses: Vec<Mouse>,
    states: Vec<S>,
}

impl<S> MouseStore<S> {
    /// The mouses in this store, in the order in which they were added.
    pub closed spec fn mouses(&self) -> Seq<Mouse> {
        self.mouses@
    }

    /// The state of each mouse in this store.
    pub closed spec fn states(&self) -> Map<Mouse, S> {
        Map::new(|m: Mouse| self.mouses@.contains(m), |m: Mouse| self.states@[self.mouses@.index_of(m)])
    }

    /// No mouse is stored twice, and every mouse has a state.
    pub closed spec fn wf(&self) -> bool {
        &&& self.mouses@.no_duplicates()
        &&& self.mouses@.len() == self.states@.len()
    }

    /// The mouses of a well-formed store are exactly the keys of its states.
    pub proof fn lemma_keys(&self)
        requires
            self.wf(),
        ensures
            self.mouses().no_duplicates(),
            forall|m: Mouse| #[trigger] self.states().contains_key(m) <==> self.mouses().contains(m),
    {
    }

    /// Constructs an empty store.
    pub fn new() -> (r: Self)
        ensures
            r.wf(),
            r.mouses() == Seq::<Mouse>::empty(),
            r.states() == Map::<Mouse, S>::empty(),
    {
        let r = MouseStore { mouses: Vec::new(), states: Vec::new() };
        assert(r.states() =~= Map::<Mouse, S>::empty());
        r
    }

    /// The position of `mouse` in this store, if it is there.
    fn find(&self, mouse: Mouse) -> (r: Option<usize>)
        requires
            self.wf(),
        ensures
            r matches Some(i) ==> i < self.mouses@.len() && self.mouses@[i as int] == mouse && self.mouses@.index_of(mouse) == i,
            r is None <==> !self.mouses@.contains(mouse),
    {
        let mut i: usize = 0;
        while i < self.mouses.len()
            invariant
                i <= self.mouses@.len(),
                self.wf(),
                forall|j: int| 0 <= j < i ==> self.mouses@[j] != mouse,
            decreases self.mouses.len() - i,
        {
            if self.mouses[i] == mouse {
                proof {
                    assert(self.mouses@.contains(mouse));
                    let k = self.mouses@.index_of(mouse);
                    assert(self.mouses@[k] == mouse);
                    assert(self.mouses@[i as int] == mouse);
                    assert(self.mouses@.no_duplicates());
                    assert(k == i);
                }
                return Some(i);
            }
            i = i + 1;
        }
        None
    }

    /// Gets the state of `mouse`, or `None` when this store does not know it.
    pub fn get_mouse_state(&self, mouse: Mouse) -> (r: Option<&S>)
        requires
            self.wf(),
        ensures
            r is None <==> !self.states().contains_key(mouse),
            r matches Some(s) ==> *s == self.states()[mouse],
    {
        match self.find(mouse) {
            Some(i) => Some(&self.states[i]),
            None => None,
        }
    }

    /// Gives access to the state of `mouse` so that it can be changed, or
    /// `None` when this store does not know `mouse` (use `add_mouse` then).
    pub fn update_mouse_state(&mut self, mouse: Mouse) -> (r: Option<&mut S>)
        requires
            old(self).wf(),
        ensures
            r is None <==> !old(self).states().contains_key(mouse),
            r is None ==> *final(self) == *old(self),
            r matches Some(s) ==> *s == old(self).states()[mouse],
            r matches Some(s) ==> final(self).states() == old(self).states().insert(mouse, *final(s)),
            final(self).wf(),
            final(self).mouses() == old(self).mouses(),
            final(self).states().dom() == old(self).states().dom(),
            forall|m: Mouse| m != mouse && #[trigger] old(self).states().contains_key(m) ==> final(self).states()[m] == old(self).states()[m],
    {
        match self.find(mouse) {
            Some(i) => {
                Some(&mut self.states[i])
            },
            None => None,
        }
    }

    /// Removes `mouse` and its state from this store; nothing happens when this
    /// store does not know `mouse`. This is typically done when the mouse leaves
    /// the window.
    pub fn remove_mouse(&mut self, mouse: Mouse)
        requires
            old(self).wf(),
        ensures
            final(self).wf(),
            final(self).mouses() == without_mouse(old(self).mouses(), mouse),
            final(self).states() == old(self).states().remove(mouse),
    {
        let ghost old_mouses = self.mouses@;
        let ghost old_states = self.states@;
        let ghost old_map = self.states();
        match self.find(mouse) {
            Some(i) => {
                self.mouses.remove(i);
                self.states.remove(i);
                proof {
                    assert(self.mouses@ == old_mouses.remove(i as int));
                    assert(self.states@ == old_states.remove(i as int));
                    assert(self.mouses@.no_duplicates()) by {
                        assert forall|a: int, b: int| 0 <= a < b < self.mouses@.len() implies self.mouses@[a] != self.mouses@[b] by {
                            let oa = if a < i { a } else { a + 1 };
                            let ob = if b < i { b } else { b + 1 };
                            assert(self.mouses@[a] == old_mouses[oa]);
                            assert(self.mouses@[b] == old_mouses[ob]);
                        }
                    }
                    assert forall|m: Mouse| #[trigger] self.states().contains_key(m) <==> old_map.remove(mouse).contains_key(m) by {
                        if self.mouses@.contains(m) {
                            let k = choose|k: int| 0 <= k < self.mouses@.len() && self.mouses@[k] == m;
                            let ok = if k < i { k } else { k + 1 };
                            assert(old_mouses[ok] == m);
                            assert(old_mouses.contains(m));
                            assert(m != mouse);
                        }
                        if old_mouses.contains(m) && m != mouse {
                            let k = choose|k: int| 0 <= k < old_mouses.len() && old_mouses[k] == m;
                            assert(k != i);
                            let nk = if k < i { k } else { k - 1 };
                            assert(self.mouses@[nk] == m);
                        }
                    }
                    assert forall|m: Mouse| #[trigger] self.states().contains_key(m) implies self.states()[m] == old_map.remove(mouse)[m] by {
                        let k = self.mouses@.index_of(m);
                        assert(self.mouses@.contains(m));
                        assert(0 <= k < self.mouses@.len() && self.mouses@[k] == m);
                        let ok = if k < i { k } else { k + 1 };
                        assert(old_mouses[ok] == m);
                        assert(old_mouses.contains(m));
                        let ok2 = old_mouses.index_of(m);
                        assert(old_mouses[ok2] == m);
                        assert(ok2 == ok);
                    }
                    assert(self.states() =~= old_map.remove(mouse));
                }
            },
            None => {
                assert(old_map.remove(mouse) =~= old_map);
            },
        }
    }

    /// Adds `mouse` with the given initial state to this store. When this store
    /// already knew `mouse`, its old state is replaced and `mouse` moves to the
    /// end of the order. This is typically done when the mouse enters the window.
    pub fn add_mouse(&mut self, mouse: Mouse, initial_state: S)
        requires
            old(self).wf(),
        ensures
            final(self).wf(),
            final(self).mouses() == without_mouse(old(self).mouses(), mouse).push(mouse),
            final(self).states() == old(self).states().insert(mouse, initial_state),
    {
        let ghost old_map = self.states();
        // Make sure that no mouse is stored twice
        self.remove_mouse(mouse);
        let ghost mid_mouses = self.mouses@;
        let ghost mid_states = self.states@;
        let ghost mid_map = self.states();
        proof {
            assert(!mid_map.contains_key(mouse));
        }
        self.mouses.push(mouse);
        self.states.push(initial_state);
        proof {
            assert(self.mouses@ == mid_mouses.push(mouse));
            assert(self.states@ == mid_states.push(initial_state));
            assert(!mid_mouses.contains(mouse));
            assert(self.mouses@.no_duplicates()) by {
                assert forall|a: int, b: int| 0 <= a < b < self.mouses@.len() implies self.mouses@[a] != self.mouses@[b] by {
                    if b == mid_mouses.len() {
                        assert(mid_mouses[a] == self.mouses@[a]);
                    }
                }
            }
            assert forall|m: Mouse| #[trigger] self.states().contains_key(m) <==> mid_map.insert(mouse, initial_state).contains_key(m) by {
                if self.mouses@.contains(m) && m != mouse {
                    let k = choose|k: int| 0 <= k < self.mouses@.len() && self.mouses@[k] == m;
                    assert(k < mid_mouses.len());
                    assert(mid_mouses[k] == m);
                }
                if mid_mouses.contains(m) {
                    let k = choose|k: int| 0 <= k < mid_mouses.len() && mid_mouses[k] == m;
                    assert(self.mouses@[k] == m);
                }
                if m == mouse {
                    assert(self.mouses@[mid_mouses.len() as int] == m);
                }
            }
            assert forall|m: Mouse| #[trigger] self.states().contains_key(m) implies self.states()[m] == mid_map.insert(mouse, initial_state)[m] by {
                let k = self.mouses@.index_of(m);
                assert(self.mouses@.contains(m));
                assert(0 <= k < self.mouses@.len() && self.mouses@[k] == m);
                if m == mouse {
                    assert(k == mid_mouses.len()) by {
                        if k < mid_mouses.len() {
                            assert(mid_mouses[k] == mouse);
                        }
                    }
                } else {
                    assert(k < mid_mouses.len());
                    assert(mid_mouses[k] == m);
                    assert(mid_mouses.contains(m));
                    let k2 = mid_mouses.index_of(m);
                    assert(mid_mouses[k2] == m);
                    assert(self.mouses@[k2] == m);
                    assert(k2 == k);
                }
            }
            assert(self.states() =~= mid_map.insert(mouse, initial_state));
            assert(mid_map.insert(mouse, initial_state) =~= old_map.insert(mouse, initial_state));
        }
    }

    /// Creates a list of all mouses in this store, in the order in which they
    /// were added.
    pub fn get_mouses(&self) -> (r: Vec<Mouse>)
        ensures
            r@ == self.mouses(),
    {
        self.mouses.clone()
    }
}

/// Adding a mouse and then removing it again gives back the states from before,
/// when the store did not know that mouse yet.
pub proof fn lemma_add_then_remove<S>(states: Map<Mouse, S>, mouse: Mouse, state: S)
    requires
        !states.contains_key(mouse),
    ensures
        states.insert(mouse, state).remove(mouse) == states,
{
    assert(states.insert(mouse, state).remove(mouse) =~= states);
}

/// The state that was added last for a mouse is the state that is read back,
/// and adding or removing one mouse leaves the state of every other mouse as it
/// was.
pub proof fn lemma_read_after_write<S>(states: Map<Mouse, S>, mouse: Mouse, state: S, other: Mouse)
    requires
        other != mouse,
    ensures
        states.insert(mouse, state).contains_key(mouse),
        states.insert(mouse, state)[mouse] == state,
        states.insert(mouse, state).contains_key(other) == states.contains_key(other),
        states.insert(mouse, state)[other] == states[other],
        states.remove(mouse).contains_key(other) == states.contains_key(other),
        states.remove(mouse)[other] == states[other],
        !states.remove(mouse).contains_key(mouse),
{
}

/// Removing a mouse leaves the others in the order in which they were added.
pub proof fn lemma_remove_keeps_order(mouses: Seq<Mouse>, mouse: Mouse)
    requires
        mouses.no_duplicates(),
    ensures
        !without_mouse(mouses, mouse).contains(mouse),
        without_mouse(mouses, mouse).no_duplicates(),
        forall|m: Mouse| m != mouse ==> (#[trigger] without_mouse(mouses, mouse).contains(m) <==> mouses.contains(m)),
        !mouses.contains(mouse) ==> without_mouse(mouses, mouse) == mouses,
{
    if mouses.contains(mouse) {
        let i = mouses.index_of(mouse);
        let r = mouses.remove(i);
        assert forall|m: Mouse| m != mouse implies (#[trigger] r.contains(m) <==> mouses.contains(m)) by {
            if r.contains(m) {
                let k = choose|k: int| 0 <= k < r.len() && r[k] == m;
                let ok = if k < i { k } else { k + 1 };
                assert(mouses[ok] == m);
            }
            if mouses.contains(m) {
                let k = choose|k: int| 0 <= k < mouses.len() && mouses[k] == m;
                assert(k != i);
                let nk = if k < i { k } else { k - 1 };
                assert(r[nk] == m);
            }
        }
        assert(!r.contains(mouse)) by {
            if r.contains(mouse) {
                let k = choose|k: int| 0 <= k < r.len() && r[k] == mouse;
                let ok = if k < i { k } else { k + 1 };
                assert(mouses[ok] == mouse);
            }
        }
        assert(r.no_duplicates()) by {
            assert forall|a: int, b: int| 0 <= a < b < r.len() implies r[a] != r[b] by {
                let oa = if a < i { a } else { a + 1 };
                let ob = if b < i { b } else { b + 1 };
                assert(r[a] == mouses[oa]);
                assert(r[b] == mouses[ob]);
            }
        }
    }
}

} // verus!
