use knukki::{Mouse, MouseButton, MouseStore, PressedMouseButtons};

/// The state that the application keeps of each mouse.
#[derive(Clone, Debug, PartialEq)]
struct MouseState {
    position: (f32, f32),
    buttons: PressedMouseButtons,
}

fn pressed(indices: &[u8]) -> PressedMouseButtons {
    let mut buttons = PressedMouseButtons::new();
    for index in indices {
        buttons.press(MouseButton::new(*index));
    }
    buttons
}

#[test]
fn test_add_and_remove() {
    let mut store = MouseStore::new();
    let mouse1 = Mouse::new(100);
    let mouse2 = Mouse::new(7);
    let mouse3 = Mouse::new(33);
    let test_state = MouseState {
        position: (0.4, 0.1),
        buttons: PressedMouseButtons::new(),
    };

    assert!(store.get_mouse_state(mouse1).is_none());
    assert_eq!(Vec::<Mouse>::new(), store.get_mouses());

    store.add_mouse(mouse2, test_state.clone());
    assert!(store.get_mouse_state(mouse1).is_none());
    assert_eq!(vec![mouse2], store.get_mouses());
    store.add_mouse(mouse1, test_state.clone());
    assert_eq!(vec![mouse2, mouse1], store.get_mouses());
    assert!(store.get_mouse_state(mouse1).is_some());
    assert!(store.get_mouse_state(mouse2).is_some());

    // This shouldn't have any effect
    store.remove_mouse(mouse3);
    assert!(store.get_mouse_state(mouse1).is_some());
    assert!(store.get_mouse_state(mouse2).is_some());
    assert_eq!(vec![mouse2, mouse1], store.get_mouses());

    // This should remove only the second mouse
    store.remove_mouse(mouse2);
    assert!(store.get_mouse_state(mouse1).is_some());
    assert!(store.get_mouse_state(mouse2).is_none());
    assert_eq!(vec![mouse1], store.get_mouses());

    // Adding the first mouse again shouldn't have any effect
    store.add_mouse(mouse1, test_state.clone());
    assert!(store.get_mouse_state(mouse1).is_some());
    assert!(store.get_mouse_state(mouse2).is_none());
    assert_eq!(vec![mouse1], store.get_mouses());

    // Adding the second mouse again should be possible
    store.add_mouse(mouse2, test_state.clone());
    assert!(store.get_mouse_state(mouse1).is_some());
    assert!(store.get_mouse_state(mouse2).is_some());
    assert_eq!(vec![mouse1, mouse2], store.get_mouses());

    // Check that we can remove both mouses...
    store.remove_mouse(mouse1);
    assert!(store.get_mouse_state(mouse1).is_none());
    assert!(store.get_mouse_state(mouse2).is_some());
    assert_eq!(vec![mouse2], store.get_mouses());
    store.remove_mouse(mouse2);
    assert!(store.get_mouse_state(mouse1).is_none());
    assert!(store.get_mouse_state(mouse2).is_none());
    assert_eq!(Vec::<Mouse>::new(), store.get_mouses());
}

#[test]
fn test_state_updating() {
    let mouse1 = Mouse::new(0);
    let mouse2 = Mouse::new(200);

    let mut state1 = MouseState {
        position: (0.0, 0.2),
        buttons: PressedMouseButtons::new(),
    };
    let mut state2 = MouseState {
        position: (0.3, 0.1),
        buttons: PressedMouseButtons::new(),
    };
    let mut state3 = MouseState {
        position: (0.6, 0.7),
        buttons: PressedMouseButtons::new(),
    };

    let mut store = MouseStore::new();

    // Test single add
    store.add_mouse(mouse1, state1.clone());
    assert_eq!(Some(&state1), store.get_mouse_state(mouse1));
    assert_eq!(Some(&mut state1), store.update_mouse_state(mouse1));

    // Test overwriting
    store.add_mouse(mouse1, state2.clone());
    assert_eq!(Some(&mut state2), store.update_mouse_state(mouse1));
    assert_eq!(vec![mouse1], store.get_mouses());

    // Check that it's not possible to update a mouse the store doesn't have
    assert!(store.update_mouse_state(mouse2).is_none());
    assert_eq!(vec![mouse1], store.get_mouses());

    // But it should be possible once mouse2 has been added
    store.add_mouse(mouse2, state3.clone());
    assert_eq!(Some(&mut state3), store.update_mouse_state(mouse2));

    // Of course, we should be able to actually mutate it
    store.update_mouse_state(mouse2).unwrap().position = state1.position;
    assert_eq!(vec![mouse1, mouse2], store.get_mouses());

    // This should update the state of mouse2
    assert_eq!(
        state1.position,
        store.get_mouse_state(mouse2).unwrap().position
    );
    // But not the state of mouse1
    assert_eq!(Some(&state2), store.get_mouse_state(mouse1));

    // We shouldn't keep the state of mouse1 after removing it
    store.remove_mouse(mouse1);
    assert!(store.get_mouse_state(mouse1).is_none());
    assert!(store.update_mouse_state(mouse1).is_none());

    // But we should keep the state of mouse2
    assert_eq!(
        state1.position,
        store.get_mouse_state(mouse2).unwrap().position
    );
    assert_eq!(
        state1.position,
        store.update_mouse_state(mouse2).unwrap().position
    );
    assert_eq!(vec![mouse2], store.get_mouses());
}

#[test]
fn test_pressed_buttons_eq() {
    assert_eq!(PressedMouseButtons::new(), PressedMouseButtons::new());
    assert_eq!(pressed(&[2]), pressed(&[2]));
    assert_eq!(pressed(&[2, 5]), pressed(&[2, 5]));
    assert_eq!(pressed(&[5, 2]), pressed(&[2, 5]));

    assert_ne!(PressedMouseButtons::new(), pressed(&[0]));
    assert_ne!(pressed(&[0]), PressedMouseButtons::new());
    assert_ne!(pressed(&[1]), pressed(&[2]));
    assert_ne!(pressed(&[1, 2]), pressed(&[2]));
    assert_ne!(pressed(&[1]), pressed(&[2, 1]));
    assert_ne!(pressed(&[2, 3]), pressed(&[2, 1]));
}

#[test]
fn test_pressed_buttons() {
    let mut buttons = PressedMouseButtons::new();
    let button1 = MouseButton::new(0);
    let button2 = MouseButton::new(2);
    let button3 = MouseButton::new(3);

    assert!(!buttons.is_pressed(button1));

    buttons.press(button1);
    assert!(buttons.is_pressed(button1));
    assert!(!buttons.is_pressed(button2));

    buttons.press(button3);
    assert!(buttons.is_pressed(button1));
    assert!(!buttons.is_pressed(button2));
    assert!(buttons.is_pressed(button3));

    buttons.release(button1);
    assert!(!buttons.is_pressed(button1));
    assert!(buttons.is_pressed(button3));

    buttons.press(button2);
    assert!(buttons.is_pressed(button2));
    buttons.press(button2);
    assert!(!buttons.is_pressed(button1));
    assert!(buttons.is_pressed(button2));
    assert!(buttons.is_pressed(button3));
}

#[test]
fn test_press_then_release_restores() {
    let before = pressed(&[1, 4]);
    let mut buttons = before.clone();
    buttons.press(MouseButton::new(7));
    assert_ne!(before, buttons);
    buttons.release(MouseButton::new(7));
    assert_eq!(before, buttons);
    // Releasing a button that is not pressed changes nothing
    buttons.release(MouseButton::new(9));
    assert_eq!(before, buttons);
}

#[test]
fn test_add_then_remove_restores_store() {
    let mut store: MouseStore<u32> = MouseStore::new();
    store.add_mouse(Mouse::new(1), 10);
    store.add_mouse(Mouse::new(2), 20);
    store.add_mouse(Mouse::new(3), 30);
    store.remove_mouse(Mouse::new(3));
    assert_eq!(vec![Mouse::new(1), Mouse::new(2)], store.get_mouses());
    assert_eq!(Some(&10), store.get_mouse_state(Mouse::new(1)));
    assert_eq!(Some(&20), store.get_mouse_state(Mouse::new(2)));
    // Re-adding moves the mouse to the end and replaces its state
    store.add_mouse(Mouse::new(1), 11);
    assert_eq!(vec![Mouse::new(2), Mouse::new(1)], store.get_mouses());
    assert_eq!(Some(&11), store.get_mouse_state(Mouse::new(1)));
    *store.update_mouse_state(Mouse::new(2)).unwrap() = 21;
    assert_eq!(Some(&21), store.get_mouse_state(Mouse::new(2)));
    assert_eq!(Some(&11), store.get_mouse_state(Mouse::new(1)));
}
