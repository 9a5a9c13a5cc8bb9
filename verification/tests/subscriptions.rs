use knukki::{BuddyTracker, ComponentSubscriptions, MouseEventKind};

#[test]
fn test_new_subscriptions_are_off() {
    let s = ComponentSubscriptions::new();
    assert!(!s.mouse_click && !s.mouse_click_out && !s.mouse_press && !s.mouse_release);
    assert!(!s.mouse_move && !s.mouse_leave && !s.mouse_enter && !s.char_type);
}

#[test]
fn test_tracker_changes_only_on_real_change() {
    let mut tracker = BuddyTracker::new();
    assert!(tracker.did_request_render());
    assert!(tracker.has_changes());
    tracker.clear_changes();
    tracker.clear_render_request();
    assert!(!tracker.has_changes());

    tracker.subscribe(MouseEventKind::Click);
    assert!(tracker.has_changes());
    assert!(tracker.get_subscriptions().mouse_click);
    tracker.clear_changes();

    // Subscribing again is no change
    tracker.subscribe(MouseEventKind::Click);
    assert!(!tracker.has_changes());

    // Cancelling a subscription that is not there is no change
    tracker.unsubscribe(MouseEventKind::Leave);
    assert!(!tracker.has_changes());

    tracker.unsubscribe(MouseEventKind::Click);
    assert!(tracker.has_changes());
    assert_eq!(ComponentSubscriptions::new(), tracker.get_subscriptions());

    tracker.clear_changes();
    tracker.request_render();
    assert!(tracker.has_changes());
    tracker.clear_changes();
    tracker.request_render();
    assert!(!tracker.has_changes());
}

#[test]
fn test_take_changes() {
    let mut tracker = BuddyTracker::new();
    let check = tracker.take_changes(false, true);
    assert!(check.request_parent_render);
    assert!(check.forward_menu_change);
    assert!(!tracker.has_changes());
    // The render request itself stays until the component really rendered
    assert!(tracker.did_request_render());
    let again = tracker.take_changes(false, true);
    assert!(!again.request_parent_render && !again.forward_menu_change);

    let mut about_to_render = BuddyTracker::new();
    let check = about_to_render.take_changes(true, false);
    assert!(!check.request_parent_render && !check.forward_menu_change);
}

#[test]
fn test_set_subscribed_each_kind() {
    let kinds = [
        MouseEventKind::Click,
        MouseEventKind::ClickOut,
        MouseEventKind::Press,
        MouseEventKind::Release,
        MouseEventKind::Move,
        MouseEventKind::Enter,
        MouseEventKind::Leave,
    ];
    for kind in kinds {
        let mut s = ComponentSubscriptions::new();
        s.set_subscribed(kind, true);
        assert!(s.is_subscribed(kind));
        for other in kinds {
            if other != kind {
                assert!(!s.is_subscribed(other));
            }
        }
        s.set_subscribed(kind, false);
        assert_eq!(ComponentSubscriptions::new(), s);
    }
}
