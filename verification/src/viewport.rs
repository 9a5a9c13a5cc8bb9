use vstd::prelude::*;

use crate::region::{RegionModel, RenderRegion, child_model, intersect_model};

verus! {

/// The stacks of viewports and scissors of a renderer. The top of the viewport
/// stack is where components are drawn; the top of the scissor stack bounds the
/// pixels that they may change. Both stacks always have the same, positive,
/// height: they are kept as one stack of (viewport, scissor) pairs.
pub struct ViewportStack {
    entries: Vec<(RenderRegion, RenderRegion)>,
}

impl ViewportStack {
    /// The models of the viewports, from the bottom of the stack to the top.
    pub closed spec fn viewports(&self) -> Seq<RegionModel> {
        self.entries@.map_values(|e: (RenderRegion, RenderRegion)| e.0@)
    }

    /// The models of the scissors, from the bottom of the stack to the top.
    pub closed spec fn scissors(&self) -> Seq<RegionModel> {
        self.entries@.map_values(|e: (RenderRegion, RenderRegion)| e.1@)
    }

    /// The stack is never empty.
    #[verifier::type_invariant]
    spec fn never_empty(&self) -> bool {
        self.entries@.len() > 0
    }

    /// Both stacks have the same, positive, height.
    pub fn depth(&self) -> (r: usize)
        ensures
            r == self.viewports().len(),
            r == self.scissors().len(),
            r > 0,
    {
        proof {
            use_type_invariant(self);
        }
        self.entries.len()
    }

    /// Constructs the stacks that hold only `initial_viewport`, both as viewport
    /// and as scissor.
    pub fn new(initial_viewport: RenderRegion) -> (r: Self)
        ensures
            r.viewports() == seq![initial_viewport@],
            r.scissors() == seq![initial_viewport@],
    {
        let mut entries = Vec::new();
        entries.push((initial_viewport, initial_viewport));
        let r = ViewportStack { entries };
        assert(r.viewports() =~= seq![initial_viewport@]);
        assert(r.scissors() =~= seq![initial_viewport@]);
        r
    }

    /// The current viewport: the top of the viewport stack.
    pub fn get_viewport(&self) -> (r: RenderRegion)
        ensures
            r@ == self.viewports().last(),
    {
        proof {
            use_type_invariant(self);
        }
        self.entries[self.entries.len() - 1].0
    }

    /// The current scissor: the top of the scissor stack.
    pub fn get_scissor(&self) -> (r: RenderRegion)
        ensures
            r@ == self.scissors().last(),
    {
        proof {
            use_type_invariant(self);
        }
        self.entries[self.entries.len() - 1].1
    }

    /// Pushes the child of the current viewport between the given pixel offsets
    /// as new viewport, and its intersection with the current scissor as new
    /// scissor. When the child viewport or that intersection would have no
    /// area, nothing is pushed and the result is `false`.
    pub fn push_child(
        &mut self,
        offset_min_x: u32,
        offset_min_y: u32,
        offset_bound_x: u32,
        offset_bound_y: u32,
    ) -> (r: bool)
        requires
            old(self).viewports().last().min_x + offset_min_x <= u32::MAX,
            old(self).viewports().last().min_y + offset_min_y <= u32::MAX,
            old(self).viewports().last().min_x + offset_bound_x <= u32::MAX,
            old(self).viewports().last().min_y + offset_bound_y <= u32::MAX,
        ensures
            ({
                let child = child_model(
                    old(self).viewports().last(),
                    offset_min_x as int,
                    offset_min_y as int,
                    offset_bound_x as int,
                    offset_bound_y as int,
                );
                &&& r <==> (child is Some && intersect_model(old(self).scissors().last(), child->0) is Some)
                &&& r ==> final(self).viewports() == old(self).viewports().push(child->0)
                &&& r ==> final(self).scissors() == old(self).scissors().push(
                    intersect_model(old(self).scissors().last(), child->0)->0,
                )
                &&& !r ==> final(self).viewports() == old(self).viewports()
                &&& !r ==> final(self).scissors() == old(self).scissors()
            }),
    {
        proof {
            use_type_invariant(&*self);
        }
        let parent_viewport = self.get_viewport();
        let maybe_child = parent_viewport.child_region_from_offsets(
            offset_min_x,
            offset_min_y,
            offset_bound_x,
            offset_bound_y,
        );
        match maybe_child {
            Some(child_viewport) => {
                let parent_scissor = self.get_scissor();
                match parent_scissor.intersection(child_viewport) {
                    Some(child_scissor) => {
                        let ghost old_entries = self.entries@;
                        // The stack is taken out, changed and put back, so that
                        // it is never seen empty.
                        let mut entries = vec![(child_viewport, child_scissor)];
                        std::mem::swap(&mut entries, &mut self.entries);
                        entries.push((child_viewport, child_scissor));
                        std::mem::swap(&mut entries, &mut self.entries);
                        proof {
                            assert(self.viewports() =~= old_entries.map_values(
                                |e: (RenderRegion, RenderRegion)| e.0@,
                            ).push(child_viewport@));
                            assert(self.scissors() =~= old_entries.map_values(
                                |e: (RenderRegion, RenderRegion)| e.1@,
                            ).push(child_scissor@));
                        }
                        true
                    },
                    None => false,
                }
            },
            None => false,
        }
    }

    /// Pops the current viewport and scissor, going back to the previous ones.
    /// The bottom of the stacks is never popped.
    pub fn pop(&mut self)
        requires
            old(self).viewports().len() > 1,
        ensures
            final(self).viewports() == old(self).viewports().drop_last(),
            final(self).scissors() == old(self).scissors().drop_last(),
    {
        let ghost old_entries = self.entries@;
        // The stack is taken out, changed and put back, so that it is never
        // seen empty.
        let mut entries = vec![self.entries[0]];
        std::mem::swap(&mut entries, &mut self.entries);
        entries.pop();
        std::mem::swap(&mut entries, &mut self.entries);
        proof {
            assert(self.viewports() =~= old_entries.map_values(|e: (RenderRegion, RenderRegion)| e.0@).drop_last());
            assert(self.scissors() =~= old_entries.map_values(|e: (RenderRegion, RenderRegion)| e.1@).drop_last());
        }
    }

    /// Clears both stacks and makes `new_viewport` the only viewport and the
    /// only scissor.
    pub fn reset(&mut self, new_viewport: RenderRegion)
        ensures
            final(self).viewports() == seq![new_viewport@],
            final(self).scissors() == seq![new_viewport@],
    {
        *self = ViewportStack::new(new_viewport);
    }
}

/// Pushing a child viewport and popping it again gives back the stacks from
/// before.
pub proof fn lemma_push_then_pop(stack: Seq<RegionModel>, pushed: RegionModel)
    ensures
        stack.push(pushed).drop_last() == stack,
        stack.push(pushed).last() == pushed,
{
    assert(stack.push(pushed).drop_last() =~= stack);
}

/// The scissor that is pushed never covers a pixel outside the new viewport or
/// outside the previous scissor.
pub proof fn lemma_pushed_scissor_within(scissor: RegionModel, child: RegionModel, x: int, y: int)
    requires
        scissor.valid(),
        child.valid(),
        intersect_model(scissor, child) is Some,
    ensures
        intersect_model(scissor, child)->0.contains(x, y) ==> scissor.contains(x, y) && child.contains(x, y),
{
}

} // verus!
