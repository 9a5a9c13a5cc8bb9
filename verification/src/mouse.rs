use vstd::prelude::*;

verus! {

/// One of the buttons of a `Mouse`. Index 0 is the primary button; the meaning
/// of the other indices is left to the platform (1 is usually the right button
/// and 2 the wheel button of a desktop mouse).
#[derive(Clone, Copy, PartialEq, Eq, Debug, Structural)]
pub struct MouseButton {
    index: u8,
}

impl MouseButton {
    /// The index of this button.
    pub closed spec fn index(self) -> u8 {
        self.index
    }

    /// Constructs the button with the given index.
    pub fn new(index: u8) -> (r: Self)
        ensures
            r.index() == index,
    {
        MouseButton { index }
    }

    /// The primary button of a mouse (index 0).
    pub fn primary() -> (r: Self)
        ensures
            r.index() == 0,
    {
        MouseButton { index: 0 }
    }

    /// Gets the numerical index of this button: 0 for the primary button.
    pub fn get_index(&self) -> (r: u8)
        ensures
            r == self.index(),
    {
        self.index
    }

    /// Checks whether this is the primary button.
    pub fn is_primary(&self) -> (r: bool)
        ensures
            r <==> self.index() == 0,
    {
        self.index == 0
    }
}

/// A mouse, or anything else that produces events at screen positions (like a
/// finger on a touch screen), identified by a number.
#[derive(Clone, Copy, PartialEq, Eq, Debug, Structural)]
pub struct Mouse {
    id: u16,
}

impl Mouse {
    /// The number that identifies this mouse.
    pub closed spec fn id(self) -> u16 {
        self.id
    }

    /// Constructs the mouse with the given id. Only the provider should do this.
    pub fn new(id: u16) -> (r: Self)
        ensures
            r.id() == id,
    {
        Mouse { id }
    }

    /// Gets the numerical id of this mouse.
    pub fn get_id(&self) -> (r: u16)
        ensures
            r == self.id(),
    {
        self.id
    }
}

/// The event that tells a component that the user clicked somewhere, but not on
/// that component. It knows which mouse and which button, but no position.
#[derive(Clone, Copy, PartialEq, Eq, Debug, Structural)]
pub struct MouseClickOutEvent {
    mouse: Mouse,
    button: MouseButton,
}

impl MouseClickOutEvent {
    /// The mouse that was clicked.
    pub closed spec fn mouse(self) -> Mouse {
        self.mouse
    }

    /// The button that was clicked.
    pub closed spec fn button(self) -> MouseButton {
        self.button
    }

    /// Constructs the event for the given mouse and button.
    pub fn new(mouse: Mouse, button: MouseButton) -> (r: Self)
        ensures
            r.mouse() == mouse,
            r.button() == button,
    {
        MouseClickOutEvent { mouse, button }
    }

    /// Gets the mouse that was clicked.
    pub fn get_mouse(&self) -> (r: Mouse)
        ensures
            r == self.mouse(),
    {
        self.mouse
    }

    /// Gets the button that was clicked.
    pub fn get_button(&self) -> (r: MouseButton)
        ensures
            r == self.button(),
    {
        self.button
    }
}

/// Two buttons are equal exactly when their indices are.
pub proof fn lemma_button_eq(a: MouseButton, b: MouseButton)
    ensures
        (a == b) <==> (a.index() == b.index()),
{
}

/// Two mouses are equal exactly when their ids are.
pub proof fn lemma_mouse_eq(a: Mouse, b: Mouse)
    ensures
        (a == b) <==> (a.id() == b.id()),
{
}

/// Two click-out events are equal exactly when their mouses and buttons are.
pub proof fn lemma_click_out_eq(a: MouseClickOutEvent, b: MouseClickOutEvent)
    ensures
        (a == b) <==> (a.mouse() == b.mouse() && a.button() == b.button()),
{
}

} // verus!
