use vstd::prelude::*;

use crate::mouse::MouseButton;

verus! {

/// The set of mouse buttons that are currently held down. The order in which
/// buttons were pressed does not matter: two values are equal when they hold
/// the same buttons.
#[derive(Debug)]
pub struct PressedMouseButtons {
    button_vec: Vec<MouseButton>,
}

impl PressedMouseButtons {
    /// The buttons that are held down.
    pub closed spec fn pressed(&self) -> Set<MouseButton> {
        self.button_vec@.to_set()
    }

    /// No button is stored twice.
    #[verifier::type_invariant]
    spec fn wf(&self) -> bool {
        self.button_vec@.no_duplicates()
    }

    /// Constructs the value in which no button is pressed.
    pub fn new() -> (r: Self)
        ensures
            r.pressed() == Set::<MouseButton>::empty(),
    {
        let r = PressedMouseButtons { button_vec: Vec::with_capacity(2) };
        assert(r.button_vec@ =~= Seq::<MouseButton>::empty());
        r
    }

    /// Checks whether the given button is held down.
    pub fn is_pressed(&self, button: MouseButton) -> (r: bool)
        ensures
            r <==> self.pressed().contains(button),
    {
        let mut i: usize = 0;
        while i < self.button_vec.len()
            invariant
                i <= self.button_vec.len(),
                forall|j: int| 0 <= j < i ==> self.button_vec@[j] != button,
            decreases self.button_vec.len() - i,
        {
            if self.button_vec[i] == button {
                assert(self.button_vec@.contains(button));
                return true;
            }
            i = i + 1;
        }
        proof {
            if self.button_vec@.to_set().contains(button) {
                assert(self.button_vec@.contains(button));
            }
        }
        false
    }

    /// Marks the given button as held down. Pressing a button that is already
    /// down changes nothing.
    pub fn press(&mut self, button: MouseButton)
        ensures
            final(self).pressed() == old(self).pressed().insert(button),
    {
        proof {
            use_type_invariant(&*self);
        }
        if !self.is_pressed(button) {
            let ghost before = self.button_vec@;
            let mut buttons: Vec<MouseButton> = Vec::new();
            std::mem::swap(&mut buttons, &mut self.button_vec);
            buttons.push(button);
            proof {
                assert(buttons@ == before.push(button));
                assert(!before.contains(button));
                assert(buttons@.no_duplicates()) by {
                    assert forall|a: int, b: int| 0 <= a < b < buttons@.len() implies buttons@[a] != buttons@[b] by {
                        if b == before.len() {
                            assert(before.contains(before[a]));
                        } else {
                            assert(before[a] != before[b]);
                        }
                    }
                }
                assert(buttons@.to_set() =~= before.to_set().insert(button)) by {
                    assert forall|b: MouseButton| buttons@.to_set().contains(b) <==> before.to_set().insert(button).contains(b) by {
                        if buttons@.contains(b) {
                            let k = choose|k: int| 0 <= k < buttons@.len() && buttons@[k] == b;
                            if k < before.len() {
                                assert(before[k] == b);
                            }
                        }
                        if before.contains(b) {
                            let k = choose|k: int| 0 <= k < before.len() && before[k] == b;
                            assert(buttons@[k] == b);
                        }
                        if b == button {
                            assert(buttons@[before.len() as int] == b);
                        }
                    }
                }
            }
            self.button_vec = buttons;
        } else {
            assert(old(self).pressed().insert(button) =~= old(self).pressed());
        }
    }

    /// Marks the given button as no longer held down.
    pub fn release(&mut self, button: MouseButton)
        ensures
            final(self).pressed() == old(self).pressed().remove(button),
    {
        proof {
            use_type_invariant(&*self);
        }
        let ghost before = self.button_vec@;
        let mut kept: Vec<MouseButton> = Vec::with_capacity(self.button_vec.len());
        let mut i: usize = 0;
        while i < self.button_vec.len()
            invariant
                i <= self.button_vec.len(),
                self.button_vec@ == before,
                before.no_duplicates(),
                kept@.no_duplicates(),
                forall|b: MouseButton| kept@.contains(b) <==> (exists|j: int| 0 <= j < i && before[j] == b && b != button),
            decreases self.button_vec.len() - i,
        {
            let current = self.button_vec[i];
            if current != button {
                proof {
                    assert(!kept@.contains(current)) by {
                        if kept@.contains(current) {
                            let j = choose|j: int| 0 <= j < i && before[j] == current && current != button;
                            assert(before[j] == before[i as int]);
                        }
                    }
                }
                let ghost kept_before = kept@;
                kept.push(current);
                proof {
                    assert forall|b: MouseButton| kept@.contains(b) <==> (exists|j: int| 0 <= j < i + 1 && before[j] == b && b != button) by {
                        if kept@.contains(b) {
                            let k = choose|k: int| 0 <= k < kept@.len() && kept@[k] == b;
                            if k < kept_before.len() {
                                assert(kept_before[k] == b);
                                assert(kept_before.contains(b));
                            } else {
                                assert(before[i as int] == b);
                            }
                        }
                        if exists|j: int| 0 <= j < i + 1 && before[j] == b && b != button {
                            let j = choose|j: int| 0 <= j < i + 1 && before[j] == b && b != button;
                            if j < i {
                                assert(kept_before.contains(b));
                                let k = choose|k: int| 0 <= k < kept_before.len() && kept_before[k] == b;
                                assert(kept@[k] == b);
                            } else {
                                assert(kept@[kept_before.len() as int] == b);
                            }
                        }
                    }
                }
            } else {
                proof {
                    assert forall|b: MouseButton| kept@.contains(b) <==> (exists|j: int| 0 <= j < i + 1 && before[j] == b && b != button) by {
                        if exists|j: int| 0 <= j < i + 1 && before[j] == b && b != button {
                            let j = choose|j: int| 0 <= j < i + 1 && before[j] == b && b != button;
                            assert(j < i);
                        }
                    }
                }
            }
            i = i + 1;
        }
        self.button_vec = kept;
        proof {
            assert forall|b: MouseButton| self.button_vec@.to_set().contains(b) <==> before.to_set().remove(button).contains(b) by {
                if before.contains(b) && b != button {
                    let j = choose|j: int| 0 <= j < before.len() && before[j] == b;
                    assert(exists|j: int| 0 <= j < before.len() && before[j] == b && b != button);
                }
                if self.button_vec@.contains(b) {
                    let j = choose|j: int| 0 <= j < before.len() && before[j] == b && b != button;
                    assert(before.contains(b));
                }
            }
            assert(self.button_vec@.to_set() =~= before.to_set().remove(button));
        }
    }

    /// Whether every button of `self` is also a button of `other`.
    fn all_pressed_in(&self, other: &Self) -> (r: bool)
        ensures
            r <==> self.pressed().subset_of(other.pressed()),
    {
        let mut i: usize = 0;
        while i < self.button_vec.len()
            invariant
                i <= self.button_vec.len(),
                forall|j: int| 0 <= j < i ==> other.pressed().contains(#[trigger] self.button_vec@[j]),
            decreases self.button_vec.len() - i,
        {
            if !other.is_pressed(self.button_vec[i]) {
                assert(self.button_vec@.contains(self.button_vec@[i as int]));
                return false;
            }
            i = i + 1;
        }
        proof {
            assert forall|b: MouseButton| self.pressed().contains(b) implies other.pressed().contains(b) by {
                let j = choose|j: int| 0 <= j < self.button_vec@.len() && self.button_vec@[j] == b;
            }
        }
        true
    }
}

impl Clone for PressedMouseButtons {
    /// A copy that holds the same buttons, in the same order.
    fn clone(&self) -> (r: Self)
        ensures
            r.pressed() == self.pressed(),
    {
        proof {
            use_type_invariant(self);
        }
        let mut button_vec: Vec<MouseButton> = Vec::with_capacity(self.button_vec.len());
        let mut i: usize = 0;
        while i < self.button_vec.len()
            invariant
                i <= self.button_vec@.len(),
                button_vec@ == self.button_vec@.take(i as int),
            decreases self.button_vec.len() - i,
        {
            button_vec.push(self.button_vec[i]);
            proof {
                assert(self.button_vec@.take(i + 1) =~= self.button_vec@.take(i as int).push(self.button_vec@[i as int]));
            }
            i = i + 1;
        }
        assert(self.button_vec@.take(self.button_vec@.len() as int) =~= self.button_vec@);
        PressedMouseButtons { button_vec }
    }
}

impl PartialEq for PressedMouseButtons {
    fn eq(&self, other: &Self) -> (r: bool) {
        let r = self.all_pressed_in(other) && other.all_pressed_in(self);
        proof {
            if r {
                assert(self.pressed() =~= other.pressed());
            }
        }
        r
    }
}

impl vstd::std_specs::cmp::PartialEqSpecImpl for PressedMouseButtons {
    open spec fn obeys_eq_spec() -> bool {
        true
    }

    open spec fn eq_spec(&self, other: &Self) -> bool {
        self.pressed() == other.pressed()
    }
}

impl Eq for PressedMouseButtons {
}

/// Pressing a button and releasing it again gives back the buttons that were
/// held down before, when that button was not held down yet.
pub proof fn lemma_press_then_release(before: Set<MouseButton>, button: MouseButton)
    requires
        !before.contains(button),
    ensures
        before.insert(button).remove(button) == before,
{
    assert(before.insert(button).remove(button) =~= before);
}

/// Releasing a button only affects that button.
pub proof fn lemma_release_keeps_others(before: Set<MouseButton>, button: MouseButton, other: MouseButton)
    requires
        other != button,
    ensures
        before.remove(button).contains(other) == before.contains(other),
        before.insert(button).contains(other) == before.contains(other),
{
}

} // verus!
