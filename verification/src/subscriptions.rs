use vstd::prelude::*;

verus! {

/// The kinds of mouse events that a component can subscribe to.
#[derive(Copy, Clone, PartialEq, Eq, Debug, Structural)]
pub enum MouseEventKind {
    Click,
    ClickOut,
    Press,
    Release,
    Move,
    Enter,
    Leave,
}

/// Which events a component has subscribed to. A component only receives the
/// events it subscribed to (attaching and detaching aside).
#[derive(Copy, Clone, PartialEq, Eq, Debug, Structural)]
pub struct ComponentSubscriptions {
    pub mouse_click: bool,
    pub mouse_click_out: bool,
    pub mouse_press: bool,
    pub mouse_release: bool,
    pub mouse_move: bool,
    pub mouse_leave: bool,
    pub mouse_enter: bool,
    pub char_type: bool,
}

impl ComponentSubscriptions {
    /// Whether the subscription for the given kind of mouse event is on.
    pub open spec fn spec_get(self, kind: MouseEventKind) -> bool {
        match kind {
            MouseEventKind::Click => self.mouse_click,
            MouseEventKind::ClickOut => self.mouse_click_out,
            MouseEventKind::Press => self.mouse_press,
            MouseEventKind::Release => self.mouse_release,
            MouseEventKind::Move => self.mouse_move,
            MouseEventKind::Enter => self.mouse_enter,
            MouseEventKind::Leave => self.mouse_leave,
        }
    }

    /// These subscriptions with the one for `kind` set to `value`.
    pub open spec fn spec_set(self, kind: MouseEventKind, value: bool) -> ComponentSubscriptions {
        match kind {
            MouseEventKind::Click => ComponentSubscriptions { mouse_click: value, ..self },
            MouseEventKind::ClickOut => ComponentSubscriptions { mouse_click_out: value, ..self },
            MouseEventKind::Press => ComponentSubscriptions { mouse_press: value, ..self },
            MouseEventKind::Release => ComponentSubscriptions { mouse_release: value, ..self },
            MouseEventKind::Move => ComponentSubscriptions { mouse_move: value, ..self },
            MouseEventKind::Enter => ComponentSubscriptions { mouse_enter: value, ..self },
            MouseEventKind::Leave => ComponentSubscriptions { mouse_leave: value, ..self },
        }
    }

    /// The subscriptions of a freshly attached component: none at all.
    pub fn new() -> (r: Self)
        ensures
            !r.mouse_click,
            !r.mouse_click_out,
            !r.mouse_press,
            !r.mouse_release,
            !r.mouse_move,
            !r.mouse_leave,
            !r.mouse_enter,
            !r.char_type,
    {
        ComponentSubscriptions {
            mouse_click: false,
            mouse_click_out: false,
            mouse_press: false,
            mouse_release: false,
            mouse_move: false,
            mouse_leave: false,
            mouse_enter: false,
            char_type: false,
        }
    }

    /// Whether the subscription for the given kind of mouse event is on.
    pub fn is_subscribed(&self, kind: MouseEventKind) -> (r: bool)
        ensures
            r == self.spec_get(kind),
    {
        match kind {
            MouseEventKind::Click => self.mouse_click,
            MouseEventKind::ClickOut => self.mouse_click_out,
            MouseEventKind::Press => self.mouse_press,
            MouseEventKind::Release => self.mouse_release,
            MouseEventKind::Move => self.mouse_move,
            MouseEventKind::Enter => self.mouse_enter,
            MouseEventKind::Leave => self.mouse_leave,
        }
    }

    /// Turns the subscription for the given kind of mouse event on or off.
    pub fn set_subscribed(&mut self, kind: MouseEventKind, value: bool)
        ensures
            *final(self) == old(self).spec_set(kind, value),
    {
        match kind {
            MouseEventKind::Click => self.mouse_click = value,
            MouseEventKind::ClickOut => self.mouse_click_out = value,
            MouseEventKind::Press => self.mouse_press = value,
            MouseEventKind::Release => self.mouse_release = value,
            MouseEventKind::Move => self.mouse_move = value,
            MouseEventKind::Enter => self.mouse_enter = value,
            MouseEventKind::Leave => self.mouse_leave = value,
        }
    }
}

/// The bookkeeping that the buddy of a component keeps for the menu that owns
/// it: the subscriptions of the component, whether it asked to be rendered, and
/// whether anything changed since the menu last looked at it.
#[derive(Copy, Clone, PartialEq, Eq, Debug, Structural)]
pub struct BuddyTracker {
    pub subscriptions: ComponentSubscriptions,
    pub requested_render: bool,
    pub has_changes: bool,
}

impl BuddyTracker {
    /// The state of a freshly created buddy: no subscriptions, and a pending
    /// render request (components render right after they are attached), which
    /// counts as a change.
    pub fn new() -> (r: Self)
        ensures
            r.subscriptions == ComponentSubscriptions::new_spec(),
            r.requested_render,
            r.has_changes,
    {
        BuddyTracker { subscriptions: ComponentSubscriptions::new(), requested_render: true, has_changes: true }
    }

    /// Subscribes the component to the given kind of mouse event. This only
    /// counts as a change when the component was not subscribed yet.
    pub fn subscribe(&mut self, kind: MouseEventKind)
        ensures
            final(self).subscriptions == old(self).subscriptions.spec_set(kind, true),
            final(self).requested_render == old(self).requested_render,
            final(self).has_changes == (old(self).has_changes || !old(self).subscriptions.spec_get(kind)),
    {
        if !self.subscriptions.is_subscribed(kind) {
            self.subscriptions.set_subscribed(kind, true);
            self.has_changes = true;
        } else {
            assert(self.subscriptions.spec_set(kind, true) == self.subscriptions);
        }
    }

    /// Cancels the subscription of the component to the given kind of mouse
    /// event. This only counts as a change when the component was subscribed.
    pub fn unsubscribe(&mut self, kind: MouseEventKind)
        ensures
            final(self).subscriptions == old(self).subscriptions.spec_set(kind, false),
            final(self).requested_render == old(self).requested_render,
            final(self).has_changes == (old(self).has_changes || old(self).subscriptions.spec_get(kind)),
    {
        if self.subscriptions.is_subscribed(kind) {
            self.subscriptions.set_subscribed(kind, false);
            self.has_changes = true;
        } else {
            assert(self.subscriptions.spec_set(kind, false) == self.subscriptions);
        }
    }

    /// Asks to render the component again. This only counts as a change when
    /// no render was requested yet.
    pub fn request_render(&mut self)
        ensures
            final(self).subscriptions == old(self).subscriptions,
            final(self).requested_render,
            final(self).has_changes == (old(self).has_changes || !old(self).requested_render),
    {
        if !self.requested_render {
            self.requested_render = true;
            self.has_changes = true;
        }
    }

    /// Records that the component asked to change the menu; this always counts
    /// as a change.
    pub fn note_menu_change(&mut self)
        ensures
            final(self).subscriptions == old(self).subscriptions,
            final(self).requested_render == old(self).requested_render,
            final(self).has_changes,
    {
        self.has_changes = true;
    }

    /// Whether the component asked to be rendered.
    pub fn did_request_render(&self) -> (r: bool)
        ensures
            r == self.requested_render,
    {
        self.requested_render
    }

    /// Forgets the render request, after the component was rendered.
    pub fn clear_render_request(&mut self)
        ensures
            *final(self) == (BuddyTracker { requested_render: false, ..*old(self) }),
    {
        self.requested_render = false;
    }

    /// Whether anything changed since the last call of `clear_changes`.
    pub fn has_changes(&self) -> (r: bool)
        ensures
            r == self.has_changes,
    {
        self.has_changes
    }

    /// Marks all changes as seen.
    pub fn clear_changes(&mut self)
        ensures
            *final(self) == (BuddyTracker { has_changes: false, ..*old(self) }),
    {
        self.has_changes = false;
    }

    /// Gets the current subscriptions of the component.
    pub fn get_subscriptions(&self) -> (r: ComponentSubscriptions)
        ensures
            r == self.subscriptions,
    {
        self.subscriptions
    }
}

/// What the menu must do for its own parent after it looked at the changes of
/// one of its components.
#[derive(Copy, Clone, PartialEq, Eq, Debug, Structural)]
pub struct BuddyCheck {
    /// Ask the parent of the menu to render the menu again.
    pub request_parent_render: bool,
    /// Pass the menu change that the component asked for on to the parent.
    pub forward_menu_change: bool,
}

impl BuddyTracker {
    /// Looks at the changes of the component and marks them as seen. When
    /// there were changes, a pending render request is passed on to the parent
    /// (unless the menu is about to render anyway; the request itself stays
    /// until the component has really rendered), and so is a pending menu
    /// change (`has_next_menu`).
    pub fn take_changes(&mut self, is_about_to_render: bool, has_next_menu: bool) -> (r: BuddyCheck)
        ensures
            r.request_parent_render == (old(self).has_changes && !is_about_to_render && old(self).requested_render),
            r.forward_menu_change == (old(self).has_changes && has_next_menu),
            *final(self) == (BuddyTracker { has_changes: false, ..*old(self) }),
    {
        let mut check = BuddyCheck { request_parent_render: false, forward_menu_change: false };
        if self.has_changes {
            if !is_about_to_render && self.requested_render {
                check.request_parent_render = true;
            }
            if has_next_menu {
                check.forward_menu_change = true;
            }
            self.has_changes = false;
        }
        check
    }
}

impl ComponentSubscriptions {
    /// The value that `new` returns.
    pub open spec fn new_spec() -> ComponentSubscriptions {
        ComponentSubscriptions {
            mouse_click: false,
            mouse_click_out: false,
            mouse_press: false,
            mouse_release: false,
            mouse_move: false,
            mouse_leave: false,
            mouse_enter: false,
            char_type: false,
        }
    }
}

/// Subscribing to a kind of event and cancelling that subscription again gives
/// back the subscriptions from before, when there was no such subscription.
pub proof fn lemma_subscribe_then_unsubscribe(subs: ComponentSubscriptions, kind: MouseEventKind)
    requires
        !subs.spec_get(kind),
    ensures
        subs.spec_set(kind, true).spec_set(kind, false) == subs,
{
}

/// Changing one subscription leaves every other subscription as it was, and
/// reading it back gives the value that was written.
pub proof fn lemma_set_then_get(subs: ComponentSubscriptions, kind: MouseEventKind, other: MouseEventKind, value: bool)
    ensures
        subs.spec_set(kind, value).spec_get(kind) == value,
        other != kind ==> subs.spec_set(kind, value).spec_get(other) == subs.spec_get(other),
        subs.spec_set(kind, value).char_type == subs.char_type,
{
}

/// Subscribing twice has the same effect as subscribing once, and a repeated
/// subscription is no change.
pub proof fn lemma_subscribe_idempotent(subs: ComponentSubscriptions, kind: MouseEventKind)
    ensures
        subs.spec_set(kind, true).spec_set(kind, true) == subs.spec_set(kind, true),
        subs.spec_set(kind, true).spec_get(kind),
{
}

} // verus!
