use vstd::prelude::*;

use crate::mouse::MouseButton;

verus! {

/// What a desktop window provider tells the application, in window pixels
/// (the origin is the top-left corner of the window).
#[derive(Copy, Clone, PartialEq, Eq, Debug, Structural)]
pub enum DesktopAction {
    /// The mouse entered the window at the given pixel.
    Enter { x: i32, y: i32 },
    /// A button was pressed at the given pixel.
    Press { x: i32, y: i32, button: MouseButton },
    /// A button was released at the given pixel.
    Release { x: i32, y: i32, button: MouseButton },
    /// A button was clicked (pressed and released) at the given pixel.
    Click { x: i32, y: i32, button: MouseButton },
    /// The mouse moved between the given pixels.
    Move { from_x: i32, from_y: i32, to_x: i32, to_y: i32 },
    /// The mouse left the window at the given pixel.
    Leave { x: i32, y: i32 },
}

/// `buttons` without any occurrence of `button`, in order.
pub open spec fn without_button(buttons: Seq<MouseButton>, button: MouseButton) -> Seq<MouseButton>
    decreases buttons.len(),
{
    if buttons.len() == 0 {
        Seq::empty()
    } else {
        let rest = without_button(buttons.drop_last(), button);
        if buttons.last() == button {
            rest
        } else {
            rest.push(buttons.last())
        }
    }
}

/// The press actions for `buttons` at the given pixel, in order.
pub open spec fn presses_at(buttons: Seq<MouseButton>, x: i32, y: i32) -> Seq<DesktopAction> {
    buttons.map_values(|b: MouseButton| DesktopAction::Press { x, y, button: b })
}

/// Whether the pixel lies strictly inside a window of the given size (the
/// window system also reports positions on and outside the border, which
/// are ignored).
pub open spec fn strictly_inside(x: i32, y: i32, width: u32, height: u32) -> bool {
    0 < x && 0 < y && x < width && y < height
}

/// The mouse bookkeeping of a desktop window: where the single desktop mouse
/// was last seen, which buttons are held down, and whether the next cursor
/// position must be announced as the mouse entering the window.
pub struct DesktopMouseTracker {
    position: Option<(i32, i32)>,
    pressed: Vec<MouseButton>,
    should_fire_enter: bool,
}

impl DesktopMouseTracker {
    /// The last known position of the mouse.
    pub closed spec fn position(&self) -> Option<(i32, i32)> {
        self.position
    }

    /// The buttons that are held down, in the order in which they were pressed.
    pub closed spec fn pressed(&self) -> Seq<MouseButton> {
        self.pressed@
    }

    /// Whether the next position will be announced as entering the window.
    pub closed spec fn should_fire_enter(&self) -> bool {
        self.should_fire_enter
    }

    /// The state before any window event.
    pub fn new() -> (r: Self)
        ensures
            r.position() is None,
            r.pressed() == Seq::<MouseButton>::empty(),
            !r.should_fire_enter(),
    {
        DesktopMouseTracker { position: None, pressed: Vec::with_capacity(2), should_fire_enter: false }
    }

    /// Handles a button of the mouse going down (`is_press`) or up. Without a
    /// known position, nothing is reported; otherwise a press, or a release
    /// followed by a click, at that position.
    pub fn mouse_input(&mut self, button: MouseButton, is_press: bool) -> (r: Vec<DesktopAction>)
        ensures
            final(self).position() == old(self).position(),
            final(self).should_fire_enter() == old(self).should_fire_enter(),
            is_press ==> final(self).pressed() == old(self).pressed().push(button),
            !is_press ==> final(self).pressed() == without_button(old(self).pressed(), button),
            r@ == match old(self).position() {
                None => Seq::empty(),
                Some((x, y)) => if is_press {
                    seq![DesktopAction::Press { x, y, button }]
                } else {
                    seq![DesktopAction::Release { x, y, button }, DesktopAction::Click { x, y, button }]
                },
            },
    {
        if is_press {
            self.pressed.push(button);
        } else {
            let mut kept: Vec<MouseButton> = Vec::with_capacity(self.pressed.len());
            let mut i: usize = 0;
            while i < self.pressed.len()
                invariant
                    i <= self.pressed@.len(),
                    kept@ == without_button(self.pressed@.take(i as int), button),
                decreases self.pressed.len() - i,
            {
                proof {
                    assert(self.pressed@.take(i + 1).drop_last() =~= self.pressed@.take(i as int));
                }
                if self.pressed[i] != button {
                    kept.push(self.pressed[i]);
                }
                i = i + 1;
            }
            assert(self.pressed@.take(self.pressed@.len() as int) =~= self.pressed@);
            self.pressed = kept;
        }
        let mut actions: Vec<DesktopAction> = Vec::new();
        match self.position {
            Some((x, y)) => {
                if is_press {
                    actions.push(DesktopAction::Press { x, y, button });
                } else {
                    actions.push(DesktopAction::Release { x, y, button });
                    actions.push(DesktopAction::Click { x, y, button });
                }
            },
            None => {},
        }
        assert(actions@ =~= match old(self).position() {
            None => Seq::empty(),
            Some((x, y)) => if is_press {
                seq![DesktopAction::Press { x, y, button }]
            } else {
                seq![DesktopAction::Release { x, y, button }, DesktopAction::Click { x, y, button }]
            },
        });
        actions
    }

    /// Handles the cursor moving to the pixel `(x, y)` of a window of the given
    /// size. Positions that are not strictly inside the window are ignored.
    /// Otherwise, when the mouse just entered the window, that is reported
    /// first, together with a press for every button that is held down; then a
    /// move from the previous position, when there is one and it differs.
    pub fn cursor_moved(&mut self, x: i32, y: i32, width: u32, height: u32) -> (r: Vec<DesktopAction>)
        ensures
            !strictly_inside(x, y, width, height) ==> r@.len() == 0 && final(self).position() == old(self).position()
                && final(self).should_fire_enter() == old(self).should_fire_enter(),
            strictly_inside(x, y, width, height) ==> {
                let entered: Seq<DesktopAction> = if old(self).should_fire_enter() {
                    seq![DesktopAction::Enter { x, y }] + presses_at(old(self).pressed(), x, y)
                } else {
                    Seq::empty()
                };
                let moved: Seq<DesktopAction> = match old(self).position() {
                    Some((px, py)) => if px != x || py != y {
                        seq![DesktopAction::Move { from_x: px, from_y: py, to_x: x, to_y: y }]
                    } else {
                        Seq::empty()
                    },
                    None => Seq::empty(),
                };
                &&& r@ == entered + moved
                &&& final(self).position() == Some((x, y))
                &&& !final(self).should_fire_enter()
            },
            final(self).pressed() == old(self).pressed(),
    {
        let mut actions: Vec<DesktopAction> = Vec::new();
        if x <= 0 || y <= 0 || (x as u32) >= width || (y as u32) >= height {
            assert(!strictly_inside(x, y, width, height));
            return actions;
        }
        let ghost entered: Seq<DesktopAction> = if self.should_fire_enter {
            seq![DesktopAction::Enter { x, y }] + presses_at(self.pressed@, x, y)
        } else {
            Seq::empty()
        };
        if self.should_fire_enter {
            actions.push(DesktopAction::Enter { x, y });
            let mut i: usize = 0;
            while i < self.pressed.len()
                invariant
                    i <= self.pressed@.len(),
                    actions@ == seq![DesktopAction::Enter { x, y }] + presses_at(self.pressed@.take(i as int), x, y),
                decreases self.pressed.len() - i,
            {
                let button = self.pressed[i];
                actions.push(DesktopAction::Press { x, y, button });
                proof {
                    assert(presses_at(self.pressed@.take(i + 1), x, y) =~= presses_at(self.pressed@.take(i as int), x, y).push(
                        DesktopAction::Press { x, y, button },
                    ));
                    assert(actions@ =~= seq![DesktopAction::Enter { x, y }] + presses_at(self.pressed@.take(i + 1), x, y));
                }
                i = i + 1;
            }
            assert(self.pressed@.take(self.pressed@.len() as int) =~= self.pressed@);
            self.should_fire_enter = false;
        } else {
            assert(actions@ =~= entered);
        }
        match self.position {
            Some((px, py)) => {
                if px != x || py != y {
                    actions.push(DesktopAction::Move { from_x: px, from_y: py, to_x: x, to_y: y });
                }
            },
            None => {},
        }
        self.position = Some((x, y));
        proof {
            let moved: Seq<DesktopAction> = match old(self).position() {
                Some((px, py)) => if px != x || py != y {
                    seq![DesktopAction::Move { from_x: px, from_y: py, to_x: x, to_y: y }]
                } else {
                    Seq::empty()
                },
                None => Seq::empty(),
            };
            assert(actions@ =~= entered + moved);
        }
        actions
    }

    /// Handles the cursor entering the window: its next position inside the
    /// window will be reported as entering.
    pub fn cursor_entered(&mut self)
        ensures
            final(self).should_fire_enter(),
            final(self).position() == old(self).position(),
            final(self).pressed() == old(self).pressed(),
    {
        self.should_fire_enter = true;
    }

    /// Handles the cursor leaving the window: it leaves at its last known
    /// position (if any), which is then forgotten.
    pub fn cursor_left(&mut self) -> (r: Option<DesktopAction>)
        ensures
            r == match old(self).position() {
                Some((x, y)) => Some(DesktopAction::Leave { x, y }),
                None => None,
            },
            final(self).position() is None,
            final(self).should_fire_enter() == old(self).should_fire_enter(),
            final(self).pressed() == old(self).pressed(),
    {
        let r = match self.position {
            Some((x, y)) => Some(DesktopAction::Leave { x, y }),
            None => None,
        };
        self.position = None;
        r
    }

    /// The buttons that are held down, in the order in which they were pressed.
    pub fn get_pressed(&self) -> (r: &Vec<MouseButton>)
        ensures
            r@ == self.pressed(),
    {
        &self.pressed
    }
}

/// Releasing a button removes every occurrence of it and keeps the other
/// buttons in order.
pub proof fn lemma_release_removes(buttons: Seq<MouseButton>, button: MouseButton)
    ensures
        !without_button(buttons, button).contains(button),
        forall|b: MouseButton| b != button ==> (#[trigger] without_button(buttons, button).contains(b) <==> buttons.contains(b)),
    decreases buttons.len(),
{
    if buttons.len() > 0 {
        let rest = buttons.drop_last();
        lemma_release_removes(rest, button);
        let r = without_button(buttons, button);
        assert forall|b: MouseButton| b != button implies (#[trigger] r.contains(b) <==> buttons.contains(b)) by {
            if buttons.contains(b) {
                let k = choose|k: int| 0 <= k < buttons.len() && buttons[k] == b;
                if k < rest.len() {
                    assert(rest[k] == b);
                    assert(rest.contains(b));
                    assert(without_button(rest, button).contains(b));
                    let j = choose|j: int| 0 <= j < without_button(rest, button).len() && without_button(rest, button)[j] == b;
                    assert(r[j] == b);
                } else {
                    assert(r[r.len() - 1] == b);
                }
            }
            if r.contains(b) {
                let j = choose|j: int| 0 <= j < r.len() && r[j] == b;
                if j < without_button(rest, button).len() {
                    assert(without_button(rest, button)[j] == b);
                    assert(without_button(rest, button).contains(b));
                    let k = choose|k: int| 0 <= k < rest.len() && rest[k] == b;
                    assert(buttons[k] == b);
                } else {
                    assert(buttons[buttons.len() - 1] == b);
                }
            }
        }
        assert(!r.contains(button)) by {
            if r.contains(button) {
                let j = choose|j: int| 0 <= j < r.len() && r[j] == button;
                if j < without_button(rest, button).len() {
                    assert(without_button(rest, button)[j] == button);
                    assert(without_button(rest, button).contains(button));
                }
            }
        }
    }
}

/// A cursor position is taken into account (see `cursor_moved`) exactly when
/// its x lies strictly between 0 and the width of the window and its y
/// strictly between 0 and the height.
pub proof fn lemma_window_bounds(x: i32, y: i32, width: u32, height: u32)
    ensures
        strictly_inside(x, y, width, height) <==> (0 < x && (x as int) < (width as int) && 0 < y && (y as int) < (height as int)),
{
}

} // verus!
