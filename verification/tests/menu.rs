use knukki::menu::{find_mouse, first_hit, needs_render, plan_menu_click, plan_menu_render, select_mouses};
use knukki::{MenuClickStep, Mouse};

#[test]
fn test_first_hit() {
    assert_eq!(None, first_hit(&vec![]));
    assert_eq!(None, first_hit(&vec![false, false]));
    assert_eq!(Some(1), first_hit(&vec![false, true, true]));
}

#[test]
fn test_menu_click_every_component_once() {
    let steps = plan_menu_click(4, Some(2));
    assert_eq!(
        vec![
            MenuClickStep { index: 2, hit: true },
            MenuClickStep { index: 0, hit: false },
            MenuClickStep { index: 1, hit: false },
            MenuClickStep { index: 3, hit: false },
        ],
        steps
    );
    let missed = plan_menu_click(2, None);
    assert_eq!(
        vec![MenuClickStep { index: 0, hit: false }, MenuClickStep { index: 1, hit: false }],
        missed
    );
    assert!(plan_menu_click(0, None).is_empty());
}

#[test]
fn test_menu_render_plan() {
    let first = plan_menu_render(false, false, true);
    assert!(first.clear_background && first.entire_result && first.keep_child_regions);
    let later = plan_menu_render(false, true, true);
    assert!(!later.clear_background && !later.entire_result && later.keep_child_regions);
    let forced = plan_menu_render(true, true, true);
    assert!(forced.clear_background && forced.entire_result && !forced.keep_child_regions);
    let no_background = plan_menu_render(true, false, false);
    assert!(!no_background.clear_background && !no_background.entire_result && no_background.keep_child_regions);
    assert!(needs_render(true, false));
    assert!(needs_render(false, true));
    assert!(!needs_render(false, false));
}

#[test]
fn test_select_and_find_mouses() {
    let mouses = vec![Mouse::new(1), Mouse::new(2), Mouse::new(3)];
    assert_eq!(vec![Mouse::new(1), Mouse::new(3)], select_mouses(&mouses, &vec![true, false, true]));
    assert_eq!(Some(2), find_mouse(&mouses, Mouse::new(3)));
    assert_eq!(None, find_mouse(&mouses, Mouse::new(9)));
}
