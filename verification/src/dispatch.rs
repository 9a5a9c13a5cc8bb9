use vstd::prelude::*;

use crate::subscriptions::{ComponentSubscriptions, MouseEventKind};

verus! {

/// How a line segment (the path of a mouse from one position to the next)
/// meets the region where a component has drawn something.
#[derive(Copy, Clone, PartialEq, Eq, Debug, Structural)]
pub enum IntersectionKind {
    /// Both ends are inside the region.
    FullyInside,
    /// Both ends are outside the region and the segment misses it.
    FullyOutside,
    /// The segment starts outside and ends inside; it has an entry point.
    Enters,
    /// The segment starts inside and ends outside; it has an exit point.
    Exits,
    /// Both ends are outside, but the segment passes through the region; it
    /// has an entrance and an exit point.
    Crosses,
}

/// The positions that a planned mouse event can refer to.
#[derive(Copy, Clone, PartialEq, Eq, Debug, Structural)]
pub enum PointRole {
    /// Where the mouse came from.
    From,
    /// Where the mouse went to.
    To,
    /// The single point where the segment meets the border of the region.
    Point,
    /// The first point where the segment crosses the border of the region.
    Entrance,
    /// The last point where the segment crosses the border of the region.
    Exit,
}

/// A mouse event that a component should receive because its mouse moved.
#[derive(Copy, Clone, PartialEq, Eq, Debug, Structural)]
pub enum MoveAction {
    /// A mouse enter event at the given position.
    Enter(PointRole),
    /// A mouse move event from the first to the second position.
    Move(PointRole, PointRole),
    /// A mouse leave event at the given position.
    Leave(PointRole),
}

/// One step of a plan: the action, and the kind of subscription that must be
/// on at the moment the step is carried out (`None`: no such condition).
/// Subscriptions are checked step by step, because a component may subscribe
/// or unsubscribe while it handles an earlier step.
#[derive(Copy, Clone, PartialEq, Eq, Debug, Structural)]
pub struct PlannedMove {
    pub action: MoveAction,
    pub live_guard: Option<MouseEventKind>,
}

/// What a component receives when a mouse is clicked.
#[derive(Copy, Clone, PartialEq, Eq, Debug, Structural)]
pub enum ClickPlan {
    Nothing,
    Click,
    ClickOut,
}

/// Whether a component has rendered (`Some`) and if so, whether it asked to
/// only get mouse events where it has drawn something.
pub open spec fn passes_filter(last_filter: Option<bool>, point_inside: bool) -> bool {
    match last_filter {
        Some(filter) => !filter || point_inside,
        None => false,
    }
}

/// Decides whether an event at a single point (a press, release, enter or
/// leave) reaches a component: it must be subscribed, it must have rendered,
/// and, when it filters mouse actions, the point must lie in what it drew.
pub fn should_deliver(subscribed: bool, last_filter: Option<bool>, point_inside: bool) -> (r: bool)
    ensures
        r == (subscribed && passes_filter(last_filter, point_inside)),
{
    if !subscribed {
        return false;
    }
    match last_filter {
        Some(filter) => !filter || point_inside,
        None => false,
    }
}

/// The click plan of the root component, as the application decides it.
pub open spec fn root_click_spec(subs: ComponentSubscriptions, last_filter: Option<bool>, point_inside: bool) -> ClickPlan {
    if last_filter is None {
        ClickPlan::Nothing
    } else if passes_filter(last_filter, point_inside) {
        if subs.mouse_click { ClickPlan::Click } else { ClickPlan::Nothing }
    } else {
        if subs.mouse_click_out { ClickPlan::ClickOut } else { ClickPlan::Nothing }
    }
}

/// Decides what the root component receives for a click. Before its first
/// render it receives nothing. When the click passes its filter it receives
/// the click, if it subscribed to clicks; when its filter stops the click, it
/// receives a click outside it, if it subscribed to those. A component only
/// receives the events it subscribed to.
pub fn plan_root_click(subs: ComponentSubscriptions, last_filter: Option<bool>, point_inside: bool) -> (r: ClickPlan)
    ensures
        r == root_click_spec(subs, last_filter, point_inside),
{
    match last_filter {
        None => ClickPlan::Nothing,
        Some(filter) => {
            if !filter || point_inside {
                if subs.mouse_click { ClickPlan::Click } else { ClickPlan::Nothing }
            } else if subs.mouse_click_out {
                ClickPlan::ClickOut
            } else {
                ClickPlan::Nothing
            }
        },
    }
}

/// The click plan of a component inside a menu that was hit by the click.
pub open spec fn entry_click_spec(subs: ComponentSubscriptions, last_filter: Option<bool>, point_inside: bool) -> ClickPlan {
    if subs.mouse_click && last_filter is Some {
        if passes_filter(last_filter, point_inside) {
            ClickPlan::Click
        } else if subs.mouse_click_out {
            ClickPlan::ClickOut
        } else {
            ClickPlan::Nothing
        }
    } else {
        ClickPlan::Nothing
    }
}

/// Decides what a component in a menu receives when the click hit its domain:
/// a click when it is subscribed to clicks, has rendered and the click passes
/// its filter; a click outside it when the filter stopped the click and it is
/// subscribed to clicks outside it; nothing otherwise.
pub fn plan_entry_click(subs: ComponentSubscriptions, last_filter: Option<bool>, point_inside: bool) -> (r: ClickPlan)
    ensures
        r == entry_click_spec(subs, last_filter, point_inside),
{
    if subs.mouse_click {
        match last_filter {
            Some(filter) => {
                if !filter || point_inside {
                    ClickPlan::Click
                } else if subs.mouse_click_out {
                    ClickPlan::ClickOut
                } else {
                    ClickPlan::Nothing
                }
            },
            None => ClickPlan::Nothing,
        }
    } else {
        ClickPlan::Nothing
    }
}

/// A step whose subscription is checked when it is carried out.
pub open spec fn live(action: MoveAction, kind: MouseEventKind) -> PlannedMove {
    PlannedMove { action, live_guard: Some(kind) }
}

/// A step without further condition.
pub open spec fn fixed(action: MoveAction) -> PlannedMove {
    PlannedMove { action, live_guard: None }
}

/// The plan of the root component for a mouse move from `From` to `To`.
pub open spec fn root_move_spec(
    subs: ComponentSubscriptions,
    last_filter: Option<bool>,
    kind: IntersectionKind,
    to_is_point: bool,
    from_is_point: bool,
) -> Seq<PlannedMove> {
    if last_filter is None || !(subs.mouse_enter || subs.mouse_move || subs.mouse_leave) {
        Seq::empty()
    } else if last_filter == Some(false) {
        seq![live(MoveAction::Move(PointRole::From, PointRole::To), MouseEventKind::Move)]
    } else {
        match kind {
            IntersectionKind::FullyOutside => Seq::empty(),
            IntersectionKind::FullyInside => seq![live(MoveAction::Move(PointRole::From, PointRole::To), MouseEventKind::Move)],
            IntersectionKind::Enters => {
                let enter = seq![live(MoveAction::Enter(PointRole::Point), MouseEventKind::Enter)];
                if to_is_point {
                    enter
                } else {
                    enter.push(live(MoveAction::Move(PointRole::Point, PointRole::To), MouseEventKind::Move))
                }
            },
            IntersectionKind::Exits => {
                let leave = live(MoveAction::Leave(PointRole::Point), MouseEventKind::Leave);
                if from_is_point {
                    seq![leave]
                } else {
                    seq![live(MoveAction::Move(PointRole::From, PointRole::Point), MouseEventKind::Move), leave]
                }
            },
            IntersectionKind::Crosses => seq![
                live(MoveAction::Enter(PointRole::Entrance), MouseEventKind::Enter),
                live(MoveAction::Move(PointRole::Entrance, PointRole::Exit), MouseEventKind::Move),
                live(MoveAction::Leave(PointRole::Exit), MouseEventKind::Leave),
            ],
        }
    }
}

fn live_step(action: MoveAction, kind: MouseEventKind) -> (r: PlannedMove)
    ensures
        r == live(action, kind),
{
    PlannedMove { action, live_guard: Some(kind) }
}

/// Plans the events that the root component receives when a mouse moves.
/// Nothing happens before the first render or when the root component is
/// subscribed to none of enter, move and leave. Without filtering, the move is
/// passed on as it is. With filtering, `kind` tells how the path of the mouse
/// meets what the component drew, and the move is split at the border: an
/// enter at the entry point, a leave at the exit point, and a move for the part
/// inside (left out when that part is a single point). Every step is guarded by
/// the live subscription to its kind of event.
pub fn plan_root_move(
    subs: ComponentSubscriptions,
    last_filter: Option<bool>,
    kind: IntersectionKind,
    to_is_point: bool,
    from_is_point: bool,
) -> (r: Vec<PlannedMove>)
    ensures
        r@ == root_move_spec(subs, last_filter, kind, to_is_point, from_is_point),
{
    let mut plan: Vec<PlannedMove> = Vec::new();
    if !(subs.mouse_enter || subs.mouse_move || subs.mouse_leave) {
        assert(plan@ =~= root_move_spec(subs, last_filter, kind, to_is_point, from_is_point));
        return plan;
    }
    match last_filter {
        None => {},
        Some(false) => {
            plan.push(live_step(MoveAction::Move(PointRole::From, PointRole::To), MouseEventKind::Move));
        },
        Some(true) => {
            match kind {
                IntersectionKind::FullyOutside => {},
                IntersectionKind::FullyInside => {
                    plan.push(live_step(MoveAction::Move(PointRole::From, PointRole::To), MouseEventKind::Move));
                },
                IntersectionKind::Enters => {
                    plan.push(live_step(MoveAction::Enter(PointRole::Point), MouseEventKind::Enter));
                    if !to_is_point {
                        plan.push(live_step(MoveAction::Move(PointRole::Point, PointRole::To), MouseEventKind::Move));
                    }
                },
                IntersectionKind::Exits => {
                    if !from_is_point {
                        plan.push(live_step(MoveAction::Move(PointRole::From, PointRole::Point), MouseEventKind::Move));
                    }
                    plan.push(live_step(MoveAction::Leave(PointRole::Point), MouseEventKind::Leave));
                },
                IntersectionKind::Crosses => {
                    plan.push(live_step(MoveAction::Enter(PointRole::Entrance), MouseEventKind::Enter));
                    plan.push(live_step(MoveAction::Move(PointRole::Entrance, PointRole::Exit), MouseEventKind::Move));
                    plan.push(live_step(MoveAction::Leave(PointRole::Exit), MouseEventKind::Leave));
                },
            }
        },
    }
    assert(plan@ =~= root_move_spec(subs, last_filter, kind, to_is_point, from_is_point));
    plan
}

/// The plan of a component inside a menu for a mouse move. The subscriptions
/// in `subs` are those from before the move; some steps check them then, and
/// the later steps check the live subscriptions.
pub open spec fn entry_move_spec(subs: ComponentSubscriptions, rendered: bool, kind: IntersectionKind) -> Seq<PlannedMove> {
    if !rendered || !(subs.mouse_enter || subs.mouse_move || subs.mouse_leave) {
        Seq::empty()
    } else {
        match kind {
            IntersectionKind::FullyOutside => Seq::empty(),
            IntersectionKind::FullyInside => if subs.mouse_move {
                seq![fixed(MoveAction::Move(PointRole::From, PointRole::To))]
            } else {
                Seq::empty()
            },
            IntersectionKind::Enters => {
                let first: Seq<PlannedMove> = if subs.mouse_enter { seq![fixed(MoveAction::Enter(PointRole::Point))] } else { Seq::empty() };
                first.push(live(MoveAction::Move(PointRole::Point, PointRole::To), MouseEventKind::Move))
            },
            IntersectionKind::Exits => {
                let first: Seq<PlannedMove> = if subs.mouse_move { seq![fixed(MoveAction::Move(PointRole::From, PointRole::Point))] } else { Seq::empty() };
                first.push(live(MoveAction::Leave(PointRole::Point), MouseEventKind::Leave))
            },
            IntersectionKind::Crosses => {
                let first: Seq<PlannedMove> = if subs.mouse_enter { seq![fixed(MoveAction::Enter(PointRole::Entrance))] } else { Seq::empty() };
                first.push(live(MoveAction::Move(PointRole::Entrance, PointRole::Exit), MouseEventKind::Move)).push(
                    live(MoveAction::Leave(PointRole::Exit), MouseEventKind::Leave),
                )
            },
        }
    }
}

fn fixed_step(action: MoveAction) -> (r: PlannedMove)
    ensures
        r == fixed(action),
{
    PlannedMove { action, live_guard: None }
}

/// Plans the events that a component inside a menu receives when a mouse
/// moves. `kind` tells how the path of the mouse meets what the component drew
/// (or its entire domain, when it does not filter mouse actions). The first
/// step is decided by the subscriptions from before the move; the steps after
/// it check the live subscriptions, because the component may subscribe while
/// it handles the first step.
pub fn plan_entry_move(subs: ComponentSubscriptions, rendered: bool, kind: IntersectionKind) -> (r: Vec<PlannedMove>)
    ensures
        r@ == entry_move_spec(subs, rendered, kind),
{
    let mut plan: Vec<PlannedMove> = Vec::new();
    if !rendered || !(subs.mouse_enter || subs.mouse_move || subs.mouse_leave) {
        assert(plan@ =~= entry_move_spec(subs, rendered, kind));
        return plan;
    }
    match kind {
        IntersectionKind::FullyOutside => {},
        IntersectionKind::FullyInside => {
            if subs.mouse_move {
                plan.push(fixed_step(MoveAction::Move(PointRole::From, PointRole::To)));
            }
        },
        IntersectionKind::Enters => {
            if subs.mouse_enter {
                plan.push(fixed_step(MoveAction::Enter(PointRole::Point)));
            }
            plan.push(live_step(MoveAction::Move(PointRole::Point, PointRole::To), MouseEventKind::Move));
        },
        IntersectionKind::Exits => {
            if subs.mouse_move {
                plan.push(fixed_step(MoveAction::Move(PointRole::From, PointRole::Point)));
            }
            plan.push(live_step(MoveAction::Leave(PointRole::Point), MouseEventKind::Leave));
        },
        IntersectionKind::Crosses => {
            if subs.mouse_enter {
                plan.push(fixed_step(MoveAction::Enter(PointRole::Entrance)));
            }
            plan.push(live_step(MoveAction::Move(PointRole::Entrance, PointRole::Exit), MouseEventKind::Move));
            plan.push(live_step(MoveAction::Leave(PointRole::Exit), MouseEventKind::Leave));
        },
    }
    assert(plan@ =~= entry_move_spec(subs, rendered, kind));
    plan
}

/// Whether a step of a plan is carried out, given the subscriptions at the
/// moment it is reached.
pub fn step_applies(step: PlannedMove, live_subs: ComponentSubscriptions) -> (r: bool)
    ensures
        r == match step.live_guard {
            Some(kind) => live_subs.spec_get(kind),
            None => true,
        },
{
    match step.live_guard {
        Some(kind) => live_subs.is_subscribed(kind),
        None => true,
    }
}

/// How a segment meets an axis-aligned rectangle, given whether its start and
/// its end lie within the rectangle and how many points it has in common with
/// the four sides. A segment between two outside points crosses the rectangle
/// only when it meets the sides at least twice; a single meeting point (a
/// rounding error near a corner) counts as a miss.
pub open spec fn rectangle_kind_spec(from_inside: bool, to_inside: bool, side_points: nat) -> IntersectionKind {
    if from_inside && to_inside {
        IntersectionKind::FullyInside
    } else if !from_inside && !to_inside {
        if side_points >= 2 {
            IntersectionKind::Crosses
        } else {
            IntersectionKind::FullyOutside
        }
    } else if from_inside {
        IntersectionKind::Exits
    } else {
        IntersectionKind::Enters
    }
}

/// Classifies how a segment meets a rectangle; see `rectangle_kind_spec`.
pub fn classify_rectangle_crossing(from_inside: bool, to_inside: bool, side_points: usize) -> (r: IntersectionKind)
    ensures
        r == rectangle_kind_spec(from_inside, to_inside, side_points as nat),
{
    if from_inside && to_inside {
        IntersectionKind::FullyInside
    } else if !from_inside && !to_inside {
        if side_points >= 2 {
            IntersectionKind::Crosses
        } else {
            IntersectionKind::FullyOutside
        }
    } else if from_inside {
        IntersectionKind::Exits
    } else {
        IntersectionKind::Enters
    }
}

/// Whether the corners of the rectangle must stand in for the meeting points:
/// the segment goes in or out, yet (by rounding) no side was met.
pub fn needs_corner_fallback(from_inside: bool, to_inside: bool, side_points: usize) -> (r: bool)
    ensures
        r == (from_inside != to_inside && side_points == 0),
{
    from_inside != to_inside && side_points == 0
}

/// How a segment meets a region that is composed of several regions, given
/// whether its ends lie inside the composed region, and whether an entry point
/// (from a part the segment enters or crosses) and an exit point (from a part
/// it leaves or crosses) were found. When a point that should exist was not
/// found (by rounding), the classification falls back to the nearest case that
/// needs no such point.
pub open spec fn composite_kind_spec(from_inside: bool, to_inside: bool, has_entry: bool, has_exit: bool) -> IntersectionKind {
    if from_inside && to_inside {
        IntersectionKind::FullyInside
    } else if from_inside {
        if has_exit { IntersectionKind::Exits } else { IntersectionKind::FullyInside }
    } else if to_inside {
        if has_entry { IntersectionKind::Enters } else { IntersectionKind::FullyOutside }
    } else if has_entry {
        if has_exit { IntersectionKind::Crosses } else { IntersectionKind::Enters }
    } else {
        IntersectionKind::FullyOutside
    }
}

/// Classifies how a segment meets a composed region; see
/// `composite_kind_spec`.
pub fn classify_composite_crossing(from_inside: bool, to_inside: bool, has_entry: bool, has_exit: bool) -> (r: IntersectionKind)
    ensures
        r == composite_kind_spec(from_inside, to_inside, has_entry, has_exit),
{
    if from_inside && to_inside {
        IntersectionKind::FullyInside
    } else if from_inside {
        if has_exit { IntersectionKind::Exits } else { IntersectionKind::FullyInside }
    } else if to_inside {
        if has_entry { IntersectionKind::Enters } else { IntersectionKind::FullyOutside }
    } else if has_entry {
        if has_exit { IntersectionKind::Crosses } else { IntersectionKind::Enters }
    } else {
        IntersectionKind::FullyOutside
    }
}

/// The classifications agree with where the ends of the segment lie: a
/// segment whose ends are both inside never enters, exits or crosses, and only
/// a segment that starts outside can enter or cross.
pub proof fn lemma_kinds_respect_ends(from_inside: bool, to_inside: bool, side_points: nat, has_entry: bool, has_exit: bool)
    ensures
        (from_inside && to_inside) ==> rectangle_kind_spec(from_inside, to_inside, side_points) == IntersectionKind::FullyInside,
        (from_inside && to_inside) ==> composite_kind_spec(from_inside, to_inside, has_entry, has_exit) == IntersectionKind::FullyInside,
        rectangle_kind_spec(from_inside, to_inside, side_points) == IntersectionKind::Enters ==> !from_inside && to_inside,
        rectangle_kind_spec(from_inside, to_inside, side_points) == IntersectionKind::Exits ==> from_inside && !to_inside,
        rectangle_kind_spec(from_inside, to_inside, side_points) == IntersectionKind::Crosses ==> !from_inside && !to_inside,
        composite_kind_spec(from_inside, to_inside, has_entry, has_exit) == IntersectionKind::Enters ==> !from_inside && has_entry,
        composite_kind_spec(from_inside, to_inside, has_entry, has_exit) == IntersectionKind::Exits ==> from_inside && !to_inside && has_exit,
        composite_kind_spec(from_inside, to_inside, has_entry, has_exit) == IntersectionKind::Crosses ==> !from_inside && !to_inside && has_entry && has_exit,
{
}

/// Answers whether a button of a mouse is down, as the buddy of a component
/// reports it: `None` when the mouse is unknown, when the component has not
/// rendered yet, or when it filters mouse actions and the mouse is outside what
/// it drew; otherwise whether the button is pressed.
pub fn button_down_answer(mouse_known: bool, last_filter: Option<bool>, point_inside: bool, pressed: bool) -> (r: Option<bool>)
    ensures
        r == if mouse_known && passes_filter(last_filter, point_inside) { Some(pressed) } else { None },
{
    if mouse_known && should_deliver(true, last_filter, point_inside) {
        Some(pressed)
    } else {
        None
    }
}

/// The root never gets an event it did not subscribe to, and nothing before
/// its first render; once rendered, a click that passes its filter is a click
/// for a root subscribed to clicks, and one that its filter stops is a click
/// outside it for a root subscribed to those.
pub proof fn lemma_root_click_only_subscribed(subs: ComponentSubscriptions, last_filter: Option<bool>, point_inside: bool)
    ensures
        last_filter is None ==> root_click_spec(subs, last_filter, point_inside) == ClickPlan::Nothing,
        root_click_spec(subs, last_filter, point_inside) == ClickPlan::Click ==> subs.mouse_click && passes_filter(last_filter, point_inside),
        root_click_spec(subs, last_filter, point_inside) == ClickPlan::ClickOut ==> subs.mouse_click_out && last_filter is Some
            && !passes_filter(last_filter, point_inside),
        (subs.mouse_click && passes_filter(last_filter, point_inside)) ==> root_click_spec(subs, last_filter, point_inside) == ClickPlan::Click,
        (subs.mouse_click_out && last_filter is Some && !passes_filter(last_filter, point_inside)) ==> root_click_spec(
            subs,
            last_filter,
            point_inside,
        ) == ClickPlan::ClickOut,
{
}

/// Without filtering, a move is passed on unchanged (when the root is
/// subscribed to moves); and before the first render no event is planned at
/// all.
pub proof fn lemma_root_move_unfiltered(
    subs: ComponentSubscriptions,
    kind: IntersectionKind,
    to_is_point: bool,
    from_is_point: bool,
)
    ensures
        root_move_spec(subs, None, kind, to_is_point, from_is_point).len() == 0,
        (subs.mouse_enter || subs.mouse_move || subs.mouse_leave) ==> root_move_spec(subs, Some(false), kind, to_is_point, from_is_point)
            == seq![live(MoveAction::Move(PointRole::From, PointRole::To), MouseEventKind::Move)],
{
}

/// In every plan for a mouse move, an enter comes before any move and a leave
/// comes after any move: the component sees the mouse arrive before it moves
/// and move before it leaves.
pub proof fn lemma_move_plans_ordered(
    subs: ComponentSubscriptions,
    last_filter: Option<bool>,
    rendered: bool,
    kind: IntersectionKind,
    to_is_point: bool,
    from_is_point: bool,
)
    ensures
        plan_ordered(root_move_spec(subs, last_filter, kind, to_is_point, from_is_point)),
        plan_ordered(entry_move_spec(subs, rendered, kind)),
{
    let r = root_move_spec(subs, last_filter, kind, to_is_point, from_is_point);
    let e = entry_move_spec(subs, rendered, kind);
    assert(plan_ordered(r));
    assert(plan_ordered(e));
}

/// The rank of an action in the order enter, move, leave.
pub open spec fn action_rank(action: MoveAction) -> int {
    match action {
        MoveAction::Enter(_) => 0,
        MoveAction::Move(_, _) => 1,
        MoveAction::Leave(_) => 2,
    }
}

/// Each step of the plan comes no earlier in the order enter, move, leave than
/// the steps before it, and no kind of step occurs twice.
pub open spec fn plan_ordered(plan: Seq<PlannedMove>) -> bool {
    forall|i: int, j: int| 0 <= i < j < plan.len() ==> action_rank(plan[i].action) < action_rank(plan[j].action)
}

/// A component passes a point through its filter exactly when it has rendered
/// and either does not filter mouse actions or drew something at the point.
pub proof fn lemma_passes_filter(last_filter: Option<bool>, point_inside: bool)
    ensures
        passes_filter(last_filter, point_inside) <==> (last_filter == Some(false) || (last_filter == Some(true) && point_inside)),
{
}

/// How a segment meets a rectangle follows from where its ends lie: inside
/// exactly when both ends are inside, entering or exiting exactly when one end
/// is, and, with both ends outside, crossing exactly when it meets the sides at
/// least twice and missing the rectangle otherwise.
pub proof fn lemma_rectangle_kind(from_inside: bool, to_inside: bool, side_points: nat)
    ensures
        rectangle_kind_spec(from_inside, to_inside, side_points) == IntersectionKind::FullyInside <==> from_inside && to_inside,
        rectangle_kind_spec(from_inside, to_inside, side_points) == IntersectionKind::Enters <==> !from_inside && to_inside,
        rectangle_kind_spec(from_inside, to_inside, side_points) == IntersectionKind::Exits <==> from_inside && !to_inside,
        rectangle_kind_spec(from_inside, to_inside, side_points) == IntersectionKind::Crosses <==> !from_inside && !to_inside
            && side_points >= 2,
        rectangle_kind_spec(from_inside, to_inside, side_points) == IntersectionKind::FullyOutside <==> !from_inside
            && !to_inside && side_points < 2,
{
}

/// How a segment meets a composed region: a segment with both ends inside is
/// inside; one that leaves exits when an exit point was found; one that
/// arrives enters when an entry point was found; one with both ends outside
/// crosses when both points were found. No segment is called entering,
/// exiting or crossing without the points that this needs, and none that
/// starts inside is called entering, crossing or missing the region.
pub proof fn lemma_composite_kind(from_inside: bool, to_inside: bool, has_entry: bool, has_exit: bool)
    ensures
        from_inside && to_inside ==> composite_kind_spec(from_inside, to_inside, has_entry, has_exit)
            == IntersectionKind::FullyInside,
        from_inside && !to_inside && has_exit ==> composite_kind_spec(from_inside, to_inside, has_entry, has_exit)
            == IntersectionKind::Exits,
        !from_inside && to_inside && has_entry ==> composite_kind_spec(from_inside, to_inside, has_entry, has_exit)
            == IntersectionKind::Enters,
        !from_inside && !to_inside && has_entry && has_exit ==> composite_kind_spec(
            from_inside,
            to_inside,
            has_entry,
            has_exit,
        ) == IntersectionKind::Crosses,
        !from_inside && !has_entry ==> composite_kind_spec(from_inside, to_inside, has_entry, has_exit)
            == IntersectionKind::FullyOutside,
        composite_kind_spec(from_inside, to_inside, has_entry, has_exit) == IntersectionKind::FullyInside ==> from_inside,
        composite_kind_spec(from_inside, to_inside, has_entry, has_exit) == IntersectionKind::FullyOutside ==> !from_inside,
        composite_kind_spec(from_inside, to_inside, has_entry, has_exit) == IntersectionKind::Enters ==> !from_inside
            && has_entry,
        composite_kind_spec(from_inside, to_inside, has_entry, has_exit) == IntersectionKind::Exits ==> from_inside
            && !to_inside && has_exit,
        composite_kind_spec(from_inside, to_inside, has_entry, has_exit) == IntersectionKind::Crosses ==> !from_inside
            && !to_inside && has_entry && has_exit,
{
}

/// A component in a menu gets the click exactly when it subscribed to clicks,
/// has rendered, and does not filter mouse actions or drew something at the
/// point; it gets a click outside it exactly when it subscribed to both, has
/// rendered, filters mouse actions and drew nothing at the point.
pub proof fn lemma_entry_click(subs: ComponentSubscriptions, last_filter: Option<bool>, point_inside: bool)
    ensures
        entry_click_spec(subs, last_filter, point_inside) == ClickPlan::Click <==> subs.mouse_click && (last_filter
            == Some(false) || (last_filter == Some(true) && point_inside)),
        entry_click_spec(subs, last_filter, point_inside) == ClickPlan::ClickOut <==> subs.mouse_click
            && subs.mouse_click_out && last_filter == Some(true) && !point_inside,
{
}

/// Where the part of the path inside the region begins.
pub open spec fn inside_start(kind: IntersectionKind) -> PointRole {
    match kind {
        IntersectionKind::Enters => PointRole::Point,
        IntersectionKind::Crosses => PointRole::Entrance,
        _ => PointRole::From,
    }
}

/// Where the part of the path inside the region ends.
pub open spec fn inside_end(kind: IntersectionKind) -> PointRole {
    match kind {
        IntersectionKind::Exits => PointRole::Point,
        IntersectionKind::Crosses => PointRole::Exit,
        _ => PointRole::To,
    }
}

/// Every enter of the plan happens where the inside part of the path begins,
/// every leave where it ends, and every move goes along the inside part.
pub open spec fn follows_inside_part(plan: Seq<PlannedMove>, kind: IntersectionKind) -> bool {
    forall|i: int| 0 <= i < plan.len() ==> match #[trigger] plan[i].action {
        MoveAction::Enter(r) => r == inside_start(kind),
        MoveAction::Move(a, b) => a == inside_start(kind) && b == inside_end(kind),
        MoveAction::Leave(r) => r == inside_end(kind),
    }
}

/// Whether the plan has a step of the given rank (0: enter, 1: move, 2: leave).
pub open spec fn has_rank(plan: Seq<PlannedMove>, rank: int) -> bool {
    exists|i: int| 0 <= i < plan.len() && action_rank(#[trigger] plan[i].action) == rank
}

/// The kind of subscription that an action needs.
pub open spec fn needed_kind(action: MoveAction) -> MouseEventKind {
    match action {
        MoveAction::Enter(_) => MouseEventKind::Enter,
        MoveAction::Move(_, _) => MouseEventKind::Move,
        MoveAction::Leave(_) => MouseEventKind::Leave,
    }
}

/// A rendered root that filters mouse actions and subscribed to any of enter,
/// move and leave sees the inside part of the path: an enter exactly when the
/// path comes in, a leave exactly when it goes out, and a move exactly when the
/// inside part is more than a single point. Every step is guarded by the live
/// subscription to its own kind of event. A root that subscribed to none of
/// them gets nothing.
pub proof fn lemma_root_move_follows_path(
    subs: ComponentSubscriptions,
    kind: IntersectionKind,
    to_is_point: bool,
    from_is_point: bool,
)
    ensures
        ({
            let plan = root_move_spec(subs, Some(true), kind, to_is_point, from_is_point);
            (subs.mouse_enter || subs.mouse_move || subs.mouse_leave) ==> {
                &&& follows_inside_part(plan, kind)
                &&& has_rank(plan, 0) <==> (kind == IntersectionKind::Enters || kind == IntersectionKind::Crosses)
                &&& has_rank(plan, 2) <==> (kind == IntersectionKind::Exits || kind == IntersectionKind::Crosses)
                &&& has_rank(plan, 1) <==> (kind == IntersectionKind::FullyInside || kind == IntersectionKind::Crosses
                    || (kind == IntersectionKind::Enters && !to_is_point) || (kind == IntersectionKind::Exits
                    && !from_is_point))
                &&& forall|i: int| 0 <= i < plan.len() ==> #[trigger] plan[i].live_guard == Some(needed_kind(plan[i].action))
            }
        }),
        !(subs.mouse_enter || subs.mouse_move || subs.mouse_leave) ==> root_move_spec(
            subs,
            Some(true),
            kind,
            to_is_point,
            from_is_point,
        ).len() == 0,
        !(subs.mouse_enter || subs.mouse_move || subs.mouse_leave) ==> root_move_spec(
            subs,
            Some(false),
            kind,
            to_is_point,
            from_is_point,
        ).len() == 0,
{
    let plan = root_move_spec(subs, Some(true), kind, to_is_point, from_is_point);
    if subs.mouse_enter || subs.mouse_move || subs.mouse_leave {
        lemma_plan_ranks(plan);
    }
}

/// The ranks of a plan of at most three steps, spelled out: a step of some
/// rank is one of its (at most three) steps.
proof fn lemma_plan_ranks(plan: Seq<PlannedMove>)
    requires
        plan.len() <= 3,
    ensures
        forall|r: int| has_rank(plan, r) <==> (
            (plan.len() > 0 && action_rank(plan[0].action) == r)
            || (plan.len() > 1 && action_rank(plan[1].action) == r)
            || (plan.len() > 2 && action_rank(plan[2].action) == r)),
{
    assert forall|r: int| has_rank(plan, r) <==> (
        (plan.len() > 0 && action_rank(plan[0].action) == r)
        || (plan.len() > 1 && action_rank(plan[1].action) == r)
        || (plan.len() > 2 && action_rank(plan[2].action) == r)) by {
        if has_rank(plan, r) {
            let i = choose|i: int| 0 <= i < plan.len() && action_rank(#[trigger] plan[i].action) == r;
            assert(i == 0 || i == 1 || i == 2);
        }
        if plan.len() > 0 && action_rank(plan[0].action) == r {
            assert(action_rank(plan[0].action) == r);
        }
        if plan.len() > 1 && action_rank(plan[1].action) == r {
            assert(action_rank(plan[1].action) == r);
        }
        if plan.len() > 2 && action_rank(plan[2].action) == r {
            assert(action_rank(plan[2].action) == r);
        }
    }
}

/// A rendered component in a menu that subscribed to any of enter, move and
/// leave sees the inside part of the path: an enter exactly when the path
/// comes in and it subscribed to enters (decided before the move), a leave
/// exactly when the path goes out (checked against the live subscription), and
/// a move when the path comes in, or when it stays or goes out and the
/// component subscribed to moves before the move. A component that has not
/// rendered or subscribed to none of them gets nothing.
pub proof fn lemma_entry_move_follows_path(subs: ComponentSubscriptions, rendered: bool, kind: IntersectionKind)
    ensures
        ({
            let plan = entry_move_spec(subs, true, kind);
            (subs.mouse_enter || subs.mouse_move || subs.mouse_leave) ==> {
                &&& follows_inside_part(plan, kind)
                &&& has_rank(plan, 0) <==> ((kind == IntersectionKind::Enters || kind == IntersectionKind::Crosses)
                    && subs.mouse_enter)
                &&& has_rank(plan, 2) <==> (kind == IntersectionKind::Exits || kind == IntersectionKind::Crosses)
                &&& has_rank(plan, 1) <==> (kind == IntersectionKind::Enters || kind == IntersectionKind::Crosses
                    || ((kind == IntersectionKind::FullyInside || kind == IntersectionKind::Exits) && subs.mouse_move))
                &&& forall|i: int| 0 <= i < plan.len() ==> match #[trigger] plan[i].action {
                    MoveAction::Enter(_) => plan[i].live_guard is None,
                    MoveAction::Leave(_) => plan[i].live_guard == Some(MouseEventKind::Leave),
                    MoveAction::Move(_, _) => if kind == IntersectionKind::FullyInside || kind == IntersectionKind::Exits {
                        plan[i].live_guard is None
                    } else {
                        plan[i].live_guard == Some(MouseEventKind::Move)
                    },
                }
            }
        }),
        !rendered ==> entry_move_spec(subs, rendered, kind).len() == 0,
        !(subs.mouse_enter || subs.mouse_move || subs.mouse_leave) ==> entry_move_spec(subs, rendered, kind).len() == 0,
{
    let plan = entry_move_spec(subs, true, kind);
    if subs.mouse_enter || subs.mouse_move || subs.mouse_leave {
        lemma_plan_ranks(plan);
    }
}

} // verus!
