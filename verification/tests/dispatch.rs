use knukki::dispatch::{
    classify_composite_crossing, classify_rectangle_crossing, needs_corner_fallback,
    plan_entry_click, plan_entry_move, plan_root_click, plan_root_move, should_deliver,
    step_applies,
};
use knukki::{
    ClickPlan, ComponentSubscriptions, IntersectionKind, MouseEventKind, MoveAction, PointRole,
};

fn subs(click: bool, click_out: bool, enter: bool, mv: bool, leave: bool) -> ComponentSubscriptions {
    let mut s = ComponentSubscriptions::new();
    s.mouse_click = click;
    s.mouse_click_out = click_out;
    s.mouse_enter = enter;
    s.mouse_move = mv;
    s.mouse_leave = leave;
    s
}

fn actions(plan: &[knukki::PlannedMove]) -> Vec<MoveAction> {
    plan.iter().map(|step| step.action).collect()
}

#[test]
fn test_root_click_before_first_render() {
    let s = subs(true, true, false, false, false);
    assert_eq!(ClickPlan::Nothing, plan_root_click(s, None, true));
}

#[test]
fn test_root_click_filtering() {
    let s = subs(true, false, false, false, false);
    assert_eq!(ClickPlan::Click, plan_root_click(s, Some(false), false));
    assert_eq!(ClickPlan::Click, plan_root_click(s, Some(true), true));
    assert_eq!(ClickPlan::Nothing, plan_root_click(s, Some(true), false));
    let both = subs(true, true, false, false, false);
    assert_eq!(ClickPlan::Click, plan_root_click(both, Some(true), true));
    assert_eq!(ClickPlan::ClickOut, plan_root_click(both, Some(true), false));
    let out_only = subs(false, true, false, false, false);
    assert_eq!(ClickPlan::Nothing, plan_root_click(out_only, Some(false), false));
    assert_eq!(ClickPlan::Nothing, plan_root_click(out_only, Some(true), true));
    assert_eq!(ClickPlan::ClickOut, plan_root_click(out_only, Some(true), false));
    let none = subs(false, false, true, true, true);
    assert_eq!(ClickPlan::Nothing, plan_root_click(none, Some(false), true));
}

#[test]
fn test_entry_click() {
    let both = subs(true, true, false, false, false);
    assert_eq!(ClickPlan::Click, plan_entry_click(both, Some(true), true));
    assert_eq!(ClickPlan::ClickOut, plan_entry_click(both, Some(true), false));
    let click_only = subs(true, false, false, false, false);
    assert_eq!(ClickPlan::Nothing, plan_entry_click(click_only, Some(true), false));
    let out_only = subs(false, true, false, false, false);
    assert_eq!(ClickPlan::Nothing, plan_entry_click(out_only, Some(false), true));
    assert_eq!(ClickPlan::Nothing, plan_entry_click(both, None, true));
}

#[test]
fn test_should_deliver() {
    assert!(should_deliver(true, Some(false), false));
    assert!(should_deliver(true, Some(true), true));
    assert!(!should_deliver(true, Some(true), false));
    assert!(!should_deliver(true, None, true));
    assert!(!should_deliver(false, Some(false), true));
}

#[test]
fn test_root_move_crosses() {
    let s = subs(false, false, true, true, true);
    let plan = plan_root_move(s, Some(true), IntersectionKind::Crosses, false, false);
    assert_eq!(
        vec![
            MoveAction::Enter(PointRole::Entrance),
            MoveAction::Move(PointRole::Entrance, PointRole::Exit),
            MoveAction::Leave(PointRole::Exit),
        ],
        actions(&plan)
    );
    assert_eq!(Some(MouseEventKind::Enter), plan[0].live_guard);
}

#[test]
fn test_root_move_enters_and_exits() {
    let s = subs(false, false, true, true, true);
    let enters = plan_root_move(s, Some(true), IntersectionKind::Enters, false, false);
    assert_eq!(
        vec![MoveAction::Enter(PointRole::Point), MoveAction::Move(PointRole::Point, PointRole::To)],
        actions(&enters)
    );
    // When the mouse ends exactly on the border, there is no move inside
    let enters_on_border = plan_root_move(s, Some(true), IntersectionKind::Enters, true, false);
    assert_eq!(vec![MoveAction::Enter(PointRole::Point)], actions(&enters_on_border));
    let exits = plan_root_move(s, Some(true), IntersectionKind::Exits, false, false);
    assert_eq!(
        vec![MoveAction::Move(PointRole::From, PointRole::Point), MoveAction::Leave(PointRole::Point)],
        actions(&exits)
    );
    let exits_from_border = plan_root_move(s, Some(true), IntersectionKind::Exits, false, true);
    assert_eq!(vec![MoveAction::Leave(PointRole::Point)], actions(&exits_from_border));
}

#[test]
fn test_root_move_unfiltered_and_unrendered() {
    let s = subs(false, false, false, true, false);
    let plan = plan_root_move(s, Some(false), IntersectionKind::FullyOutside, false, false);
    assert_eq!(vec![MoveAction::Move(PointRole::From, PointRole::To)], actions(&plan));
    assert!(plan_root_move(s, None, IntersectionKind::FullyInside, false, false).is_empty());
    assert!(plan_root_move(s, Some(true), IntersectionKind::FullyOutside, false, false).is_empty());
    let nobody = subs(true, true, false, false, false);
    assert!(plan_root_move(nobody, Some(false), IntersectionKind::FullyInside, false, false).is_empty());
}

#[test]
fn test_entry_move_guards() {
    // Only subscribed to enter: the move and leave steps are still planned, but
    // only carried out when the component subscribes in the meantime.
    let s = subs(false, false, true, false, false);
    let plan = plan_entry_move(s, true, IntersectionKind::Crosses);
    assert_eq!(
        vec![
            MoveAction::Enter(PointRole::Entrance),
            MoveAction::Move(PointRole::Entrance, PointRole::Exit),
            MoveAction::Leave(PointRole::Exit),
        ],
        actions(&plan)
    );
    assert_eq!(None, plan[0].live_guard);
    assert!(step_applies(plan[0], s));
    assert!(!step_applies(plan[1], s));
    let later = subs(false, false, true, true, false);
    assert!(step_applies(plan[1], later));
    assert!(!step_applies(plan[2], later));

    let move_only = subs(false, false, false, true, false);
    let inside = plan_entry_move(move_only, true, IntersectionKind::FullyInside);
    assert_eq!(vec![MoveAction::Move(PointRole::From, PointRole::To)], actions(&inside));
    assert!(plan_entry_move(move_only, false, IntersectionKind::FullyInside).is_empty());
}

#[test]
fn test_rectangle_classification() {
    assert_eq!(IntersectionKind::FullyInside, classify_rectangle_crossing(true, true, 0));
    assert_eq!(IntersectionKind::Crosses, classify_rectangle_crossing(false, false, 2));
    assert_eq!(IntersectionKind::FullyOutside, classify_rectangle_crossing(false, false, 1));
    assert_eq!(IntersectionKind::Exits, classify_rectangle_crossing(true, false, 1));
    assert_eq!(IntersectionKind::Enters, classify_rectangle_crossing(false, true, 1));
    assert!(needs_corner_fallback(true, false, 0));
    assert!(!needs_corner_fallback(false, false, 0));
    assert!(!needs_corner_fallback(false, true, 1));
}

#[test]
fn test_composite_classification() {
    assert_eq!(IntersectionKind::FullyInside, classify_composite_crossing(true, true, false, false));
    assert_eq!(IntersectionKind::Exits, classify_composite_crossing(true, false, false, true));
    assert_eq!(IntersectionKind::FullyInside, classify_composite_crossing(true, false, false, false));
    assert_eq!(IntersectionKind::Enters, classify_composite_crossing(false, true, true, false));
    assert_eq!(IntersectionKind::FullyOutside, classify_composite_crossing(false, true, false, false));
    assert_eq!(IntersectionKind::Crosses, classify_composite_crossing(false, false, true, true));
    assert_eq!(IntersectionKind::Enters, classify_composite_crossing(false, false, true, false));
    assert_eq!(IntersectionKind::FullyOutside, classify_composite_crossing(false, false, false, true));
}
