use vstd::prelude::*;

use crate::mouse::Mouse;

verus! {

/// Decides whether a component (or the application) renders: always when it
/// is forced to, and otherwise only when a render was requested.
pub fn needs_render(force: bool, requested: bool) -> (r: bool)
    ensures
        r == (force || requested),
{
    force || requested
}

/// The index of the first component whose domain contains the point, given for
/// each component (in the order in which they were added) whether its domain
/// contains the point; `None` when no domain does.
pub fn first_hit(inside: &Vec<bool>) -> (r: Option<usize>)
    ensures
        r matches Some(i) ==> i < inside@.len() && inside@[i as int] && forall|j: int| 0 <= j < i ==> !inside@[j],
        r is None <==> forall|j: int| 0 <= j < inside@.len() ==> !inside@[j],
{
    let mut i: usize = 0;
    while i < inside.len()
        invariant
            i <= inside@.len(),
            forall|j: int| 0 <= j < i ==> !inside@[j],
        decreases inside.len() - i,
    {
        if inside[i] {
            return Some(i);
        }
        i = i + 1;
    }
    None
}

/// One step of handing a click on to the components of a menu.
#[derive(Copy, Clone, PartialEq, Eq, Debug, Structural)]
pub struct MenuClickStep {
    /// The index of the component.
    pub index: usize,
    /// `true`: the component was hit and handles the click; `false`: it
    /// handles a click outside it.
    pub hit: bool,
}

/// The steps of a click on a menu with `count` components, of which the one at
/// `hit` (if any) contains the clicked point: first the hit component gets the
/// click, then every other component, in order, gets a click outside it.
pub open spec fn menu_click_spec(count: nat, hit: Option<usize>) -> Seq<MenuClickStep> {
    match hit {
        Some(h) => Seq::new(count, |k: int|
            if k == 0 {
                MenuClickStep { index: h, hit: true }
            } else if k - 1 < h {
                MenuClickStep { index: (k - 1) as usize, hit: false }
            } else {
                MenuClickStep { index: k as usize, hit: false }
            }),
        None => Seq::new(count, |k: int| MenuClickStep { index: k as usize, hit: false }),
    }
}

/// Plans how a menu hands a click on to its `count` components.
pub fn plan_menu_click(count: usize, hit: Option<usize>) -> (r: Vec<MenuClickStep>)
    requires
        hit matches Some(h) ==> h < count,
    ensures
        r@ == menu_click_spec(count as nat, hit),
{
    let mut steps: Vec<MenuClickStep> = Vec::new();
    match hit {
        Some(h) => {
            steps.push(MenuClickStep { index: h, hit: true });
        },
        None => {},
    }
    let mut i: usize = 0;
    while i < count
        invariant
            i <= count,
            hit matches Some(h) ==> h < count,
            steps@.len() == match hit {
                Some(h) => if i <= h { i + 1 } else { i as int },
                None => i as int,
            },
            forall|k: int| 0 <= k < steps@.len() ==> #[trigger] steps@[k] == menu_click_spec(count as nat, hit)[k],
        decreases count - i,
    {
        if hit != Some(i) {
            steps.push(MenuClickStep { index: i, hit: false });
        }
        i = i + 1;
    }
    assert(steps@ =~= menu_click_spec(count as nat, hit));
    steps
}

/// What a menu does when it renders.
#[derive(Copy, Clone, PartialEq, Eq, Debug, Structural)]
pub struct MenuRenderPlan {
    /// Fill the menu with its background color first.
    pub clear_background: bool,
    /// Report the regions drawn by the components as the drawn region.
    pub keep_child_regions: bool,
    /// Report the entire menu as drawn (instead of the child regions).
    pub entire_result: bool,
}

/// Decides how a menu renders: it fills its background (when it has one) on
/// its first render and whenever it is forced to, and then it has drawn its
/// entire domain; otherwise, what it drew is what its components drew.
pub fn plan_menu_render(force: bool, has_rendered_before: bool, has_background: bool) -> (r: MenuRenderPlan)
    ensures
        r.clear_background == ((force || !has_rendered_before) && has_background),
        r.keep_child_regions == (!force || !has_background),
        r.entire_result == ((force || !has_rendered_before) && has_background),
{
    let whole = (force || !has_rendered_before) && has_background;
    MenuRenderPlan { clear_background: whole, keep_child_regions: !force || !has_background, entire_result: whole }
}

/// The mouses for which the corresponding flag is set, in their order.
pub open spec fn select_spec(mouses: Seq<Mouse>, inside: Seq<bool>) -> Seq<Mouse>
    decreases mouses.len(),
{
    if mouses.len() == 0 {
        Seq::empty()
    } else {
        let rest = select_spec(mouses.drop_last(), inside);
        if inside[mouses.len() - 1] {
            rest.push(mouses.last())
        } else {
            rest
        }
    }
}

/// Selects the mouses that hover over a component, given for each mouse
/// whether it is inside the domain of that component.
pub fn select_mouses(mouses: &Vec<Mouse>, inside: &Vec<bool>) -> (r: Vec<Mouse>)
    requires
        mouses@.len() == inside@.len(),
    ensures
        r@ == select_spec(mouses@, inside@),
{
    let mut selected: Vec<Mouse> = Vec::new();
    let mut i: usize = 0;
    while i < mouses.len()
        invariant
            i <= mouses@.len(),
            mouses@.len() == inside@.len(),
            selected@ == select_spec(mouses@.take(i as int), inside@),
        decreases mouses.len() - i,
    {
        proof {
            assert(mouses@.take(i + 1).drop_last() =~= mouses@.take(i as int));
        }
        if inside[i] {
            selected.push(mouses[i]);
        }
        i = i + 1;
    }
    assert(mouses@.take(mouses@.len() as int) =~= mouses@);
    selected
}

/// The position of the first occurrence of `mouse` in `mouses`, if any.
pub fn find_mouse(mouses: &Vec<Mouse>, mouse: Mouse) -> (r: Option<usize>)
    ensures
        r matches Some(i) ==> i < mouses@.len() && mouses@[i as int] == mouse && forall|j: int| 0 <= j < i ==> mouses@[j] != mouse,
        r is None <==> !mouses@.contains(mouse),
{
    let mut i: usize = 0;
    while i < mouses.len()
        invariant
            i <= mouses@.len(),
            forall|j: int| 0 <= j < i ==> mouses@[j] != mouse,
        decreases mouses.len() - i,
    {
        if mouses[i] == mouse {
            return Some(i);
        }
        i = i + 1;
    }
    None
}

/// Every component of a menu handles a click exactly once: the hit component
/// handles the click itself and every other component a click outside it.
pub proof fn lemma_menu_click_once(count: nat, hit: Option<usize>, c: usize)
    requires
        hit matches Some(h) ==> h < count,
        c < count,
        count <= usize::MAX,
    ensures
        exists|k: int| 0 <= k < count && #[trigger] menu_click_spec(count, hit)[k].index == c,
        forall|k1: int, k2: int| 0 <= k1 < count && 0 <= k2 < count && k1 != k2 ==>
            #[trigger] menu_click_spec(count, hit)[k1].index != #[trigger] menu_click_spec(count, hit)[k2].index,
        forall|k: int| 0 <= k < count ==> (#[trigger] menu_click_spec(count, hit)[k].hit <==> hit == Some(menu_click_spec(count, hit)[k].index)),
{
    let s = menu_click_spec(count, hit);
    assert forall|k1: int, k2: int| 0 <= k1 < count && 0 <= k2 < count && k1 != k2 implies
        #[trigger] s[k1].index != #[trigger] s[k2].index by {
        match hit {
            Some(h) => {
                let i1: int = if k1 == 0 { h as int } else if k1 - 1 < h { k1 - 1 } else { k1 };
                let i2: int = if k2 == 0 { h as int } else if k2 - 1 < h { k2 - 1 } else { k2 };
                assert(s[k1].index == i1);
                assert(s[k2].index == i2);
            },
            None => {
                assert(s[k1].index == k1);
                assert(s[k2].index == k2);
            },
        }
    }
    assert forall|k: int| 0 <= k < count implies (#[trigger] s[k].hit <==> hit == Some(s[k].index)) by {
        match hit {
            Some(h) => {
                if k == 0 {
                } else if k - 1 < h {
                    assert(s[k].index == k - 1);
                } else {
                    assert(s[k].index == k);
                }
            },
            None => {},
        }
    }
    match hit {
        Some(h) => {
            let k: int = if c == h { 0 } else if c < h { c + 1 } else { c as int };
            assert(s[k].index == c);
        },
        None => {
            assert(s[c as int].index == c);
        },
    }
}

/// The selected mouses are exactly the mouses whose flag is set: none is made
/// up and none with its flag set is left out.
pub proof fn lemma_select_exact(mouses: Seq<Mouse>, inside: Seq<bool>, m: Mouse)
    requires
        mouses.len() == inside.len(),
    ensures
        select_spec(mouses, inside).contains(m) <==> exists|i: int| 0 <= i < mouses.len() && inside[i] && #[trigger] mouses[i] == m,
        select_spec(mouses, inside).len() <= mouses.len(),
    decreases mouses.len(),
{
    if mouses.len() > 0 {
        let rest = mouses.drop_last();
        let rest_inside = inside.drop_last();
        lemma_select_rest(mouses, inside);
        lemma_select_exact(rest, rest_inside, m);
        let sel = select_spec(mouses, inside);
        let rsel = select_spec(rest, rest_inside);
        if sel.contains(m) {
            let k = choose|k: int| 0 <= k < sel.len() && sel[k] == m;
            if k < rsel.len() {
                assert(rsel[k] == m);
                assert(rsel.contains(m));
                let i = choose|i: int| 0 <= i < rest.len() && rest_inside[i] && #[trigger] rest[i] == m;
                assert(mouses[i] == m && inside[i]);
            } else {
                assert(mouses[mouses.len() - 1] == m);
            }
        }
        if exists|i: int| 0 <= i < mouses.len() && inside[i] && #[trigger] mouses[i] == m {
            let i = choose|i: int| 0 <= i < mouses.len() && inside[i] && #[trigger] mouses[i] == m;
            if i < rest.len() {
                assert(rest[i] == m && rest_inside[i]);
                assert(rsel.contains(m));
                let k = choose|k: int| 0 <= k < rsel.len() && rsel[k] == m;
                assert(sel[k] == m);
            } else {
                assert(sel[sel.len() - 1] == m);
            }
        }
    }
}

/// Selecting from all but the last mouse only looks at their own flags.
proof fn lemma_select_rest(mouses: Seq<Mouse>, inside: Seq<bool>)
    requires
        mouses.len() == inside.len(),
        mouses.len() > 0,
    ensures
        select_spec(mouses, inside) == if inside[mouses.len() - 1] {
            select_spec(mouses.drop_last(), inside.drop_last()).push(mouses.last())
        } else {
            select_spec(mouses.drop_last(), inside.drop_last())
        },
{
    lemma_select_prefix(mouses.drop_last(), inside, inside.drop_last());
}

/// Only the flags of the given mouses matter.
proof fn lemma_select_prefix(mouses: Seq<Mouse>, a: Seq<bool>, b: Seq<bool>)
    requires
        mouses.len() <= a.len(),
        mouses.len() <= b.len(),
        forall|i: int| 0 <= i < mouses.len() ==> a[i] == b[i],
    ensures
        select_spec(mouses, a) == select_spec(mouses, b),
    decreases mouses.len(),
{
    if mouses.len() > 0 {
        lemma_select_prefix(mouses.drop_last(), a, b);
    }
}

} // verus!
