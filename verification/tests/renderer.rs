use knukki::{RenderRegion, ViewportStack};

/// Pushes the child viewport with the given relative bounds, rounding them to
/// whole pixels of the current viewport as the renderer does.
fn push(stack: &mut ViewportStack, min_x: f32, min_y: f32, max_x: f32, max_y: f32) -> bool {
    let viewport = stack.get_viewport();
    let round = |size: u32, relative: f32| (size as f32 * relative).round() as u32;
    stack.push_child(
        round(viewport.get_width(), min_x),
        round(viewport.get_height(), min_y),
        round(viewport.get_width(), max_x),
        round(viewport.get_height(), max_y),
    )
}

#[test]
fn test_reset_viewport() {
    let region1 = RenderRegion::with_size(1, 2, 3, 4);
    let region2 = RenderRegion::with_size(5, 6, 7, 8);
    let region3 = RenderRegion::with_size(9, 10, 11, 12);

    let mut stack = ViewportStack::new(region1);
    assert_eq!(region1, stack.get_viewport());
    assert_eq!(region1, stack.get_scissor());

    stack.reset(region2);
    assert_eq!(region2, stack.get_viewport());
    assert_eq!(region2, stack.get_scissor());

    if push(&mut stack, 0.1, 0.1, 0.8, 0.7) {
        stack.pop();
    }
    stack.reset(region3);
    assert_eq!(region3, stack.get_viewport());
    assert_eq!(region3, stack.get_scissor());
}

#[test]
fn test_push_viewport() {
    let outer_region = RenderRegion::between(50, 50, 250, 250);
    let middle_region = RenderRegion::between(100, 50, 200, 250);
    let inner_region = RenderRegion::between(125, 75, 175, 225);

    let mut stack = ViewportStack::new(outer_region);
    assert_eq!(outer_region, stack.get_viewport());
    assert_eq!(outer_region, stack.get_scissor());

    let mut counter = 0;
    assert!(push(&mut stack, 0.25, 0.0, 0.75, 1.0));
    counter += 1;
    assert_eq!(middle_region, stack.get_viewport());
    assert_eq!(middle_region, stack.get_scissor());

    assert!(push(&mut stack, 0.25, 0.125, 0.75, 0.875));
    assert_eq!(1, counter);
    counter += 1;
    assert_eq!(inner_region, stack.get_viewport());
    assert_eq!(inner_region, stack.get_scissor());

    // And push onto an empty viewport
    assert!(!push(&mut stack, 0.001, 0.001, 0.002, 0.002));
    stack.pop();

    assert_eq!(2, counter);
    assert_eq!(middle_region, stack.get_viewport());
    assert_eq!(middle_region, stack.get_scissor());
    stack.pop();
    assert_eq!(2, counter);

    assert_eq!(outer_region, stack.get_viewport());
    assert_eq!(outer_region, stack.get_scissor());
    assert_eq!(1, stack.depth());
}

#[test]
fn test_scissor_is_intersection() {
    let outer = RenderRegion::between(0, 0, 100, 100);
    let mut stack = ViewportStack::new(outer);
    // Child viewport partly outside the parent scissor
    assert!(stack.push_child(50, 50, 150, 150));
    assert_eq!(RenderRegion::between(50, 50, 150, 150), stack.get_viewport());
    assert_eq!(RenderRegion::between(50, 50, 100, 100), stack.get_scissor());
    // A child that lies entirely outside the scissor is not pushed
    assert!(!stack.push_child(60, 60, 70, 70));
    assert_eq!(2, stack.depth());
}
