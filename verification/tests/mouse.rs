use knukki::{Mouse, MouseButton, MouseClickOutEvent};

#[test]
fn test_primary() {
    assert!(MouseButton::primary().is_primary());
    assert_eq!(0, MouseButton::primary().get_index());
}

#[test]
fn test_new() {
    assert!(!MouseButton::new(3).is_primary());
    assert_eq!(3, MouseButton::new(3).get_index());
}

#[test]
fn test_mouse_id() {
    assert_eq!(7, Mouse::new(7).get_id());
    assert_eq!(Mouse::new(7), Mouse::new(7));
    assert_ne!(Mouse::new(7), Mouse::new(8));
}

#[test]
fn test_click_out_event() {
    let event = MouseClickOutEvent::new(Mouse::new(4), MouseButton::new(2));
    assert_eq!(Mouse::new(4), event.get_mouse());
    assert_eq!(MouseButton::new(2), event.get_button());
}
