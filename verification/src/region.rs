use vstd::prelude::*;

verus! {

/// The mathematical model of a `RenderRegion`: a rectangle of pixels given by
/// its minimum corner and its (positive) size.
pub struct RegionModel {
    pub min_x: int,
    pub min_y: int,
    pub width: int,
    pub height: int,
}

impl RegionModel {
    /// The x-coordinate right after the right-most pixel column.
    pub open spec fn bound_x(self) -> int {
        self.min_x + self.width
    }

    /// The y-coordinate right after the bottom-most pixel row.
    pub open spec fn bound_y(self) -> int {
        self.min_y + self.height
    }

    /// The x-coordinate of the right-most pixel column.
    pub open spec fn max_x(self) -> int {
        self.min_x + self.width - 1
    }

    /// The y-coordinate of the bottom-most pixel row.
    pub open spec fn max_y(self) -> int {
        self.min_y + self.height - 1
    }

    /// A region is valid when it is non-empty and all of its coordinates,
    /// including the bounds, fit in a `u32`.
    pub open spec fn valid(self) -> bool {
        &&& 0 <= self.min_x
        &&& 0 <= self.min_y
        &&& 0 < self.width
        &&& 0 < self.height
        &&& self.bound_x() <= u32::MAX
        &&& self.bound_y() <= u32::MAX
    }

    /// Whether the pixel `(x, y)` lies within this region.
    pub open spec fn contains(self, x: int, y: int) -> bool {
        self.min_x <= x <= self.max_x() && self.min_y <= y <= self.max_y()
    }

    /// The region between a minimum corner and a bound corner.
    pub open spec fn between(min_x: int, min_y: int, bound_x: int, bound_y: int) -> RegionModel {
        RegionModel { min_x, min_y, width: bound_x - min_x, height: bound_y - min_y }
    }
}

/// The overlap of two regions, or `None` when they share no pixel.
pub open spec fn intersect_model(a: RegionModel, b: RegionModel) -> Option<RegionModel> {
    let min_x = vstd::math::max(a.min_x, b.min_x);
    let min_y = vstd::math::max(a.min_y, b.min_y);
    let max_x = vstd::math::min(a.max_x(), b.max_x());
    let max_y = vstd::math::min(a.max_y(), b.max_y());
    if min_x <= max_x && min_y <= max_y {
        Some(RegionModel::between(min_x, min_y, max_x + 1, max_y + 1))
    } else {
        None
    }
}

/// The sub-region between the given pixel offsets (relative to the minimum
/// corner of `parent`), or `None` when it would have no area.
pub open spec fn child_model(
    parent: RegionModel,
    offset_min_x: int,
    offset_min_y: int,
    offset_bound_x: int,
    offset_bound_y: int,
) -> Option<RegionModel> {
    let min_x = parent.min_x + offset_min_x;
    let min_y = parent.min_y + offset_min_y;
    let bound_x = parent.min_x + offset_bound_x;
    let bound_y = parent.min_y + offset_bound_y;
    if bound_x > min_x && bound_y > min_y {
        Some(RegionModel::between(min_x, min_y, bound_x, bound_y))
    } else {
        None
    }
}

/// Describes the region of the viewport where a component is allowed to render
/// itself, in whole pixels.
#[derive(Copy, Clone, Debug, PartialEq, Eq, Structural)]
pub struct RenderRegion {
    min_x: u32,
    min_y: u32,
    width: u32,
    height: u32,
}

impl View for RenderRegion {
    type V = RegionModel;

    closed spec fn view(&self) -> RegionModel {
        RegionModel {
            min_x: self.min_x as int,
            min_y: self.min_y as int,
            width: self.width as int,
            height: self.height as int,
        }
    }
}

impl RenderRegion {
    #[verifier::type_invariant]
    spec fn inv(self) -> bool {
        self@.valid()
    }

    /// Constructs the region with the given minimum corner, width and height.
    /// Both sizes must be positive and the bound corner must fit in a `u32`.
    pub fn with_size(min_x: u32, min_y: u32, width: u32, height: u32) -> (r: Self)
        requires
            width > 0,
            height > 0,
            min_x + width <= u32::MAX,
            min_y + height <= u32::MAX,
        ensures
            r@ == (RegionModel { min_x: min_x as int, min_y: min_y as int, width: width as int, height: height as int }),
            r@.valid(),
    {
        RenderRegion { min_x, min_y, width, height }
    }

    /// Constructs the region between the minimum corner and the bound corner
    /// (the corner right after the maximum pixel).
    pub fn between(min_x: u32, min_y: u32, bound_x: u32, bound_y: u32) -> (r: Self)
        requires
            bound_x > min_x,
            bound_y > min_y,
        ensures
            r@ == RegionModel::between(min_x as int, min_y as int, bound_x as int, bound_y as int),
            r@.valid(),
    {
        RenderRegion { min_x, min_y, width: bound_x - min_x, height: bound_y - min_y }
    }

    /// The x-coordinate of the left-most pixels of this region.
    pub fn get_min_x(&self) -> (r: u32)
        ensures
            r == self@.min_x,
    {
        self.min_x
    }

    /// The y-coordinate of the top-most pixels of this region.
    pub fn get_min_y(&self) -> (r: u32)
        ensures
            r == self@.min_y,
    {
        self.min_y
    }

    /// The x-coordinate of the right-most pixels of this region.
    pub fn get_max_x(&self) -> (r: u32)
        ensures
            r == self@.max_x(),
    {
        proof {
            use_type_invariant(self);
        }
        self.min_x + self.width - 1
    }

    /// The y-coordinate of the bottom-most pixels of this region.
    pub fn get_max_y(&self) -> (r: u32)
        ensures
            r == self@.max_y(),
    {
        proof {
            use_type_invariant(self);
        }
        self.min_y + self.height - 1
    }

    /// The x-coordinate right after the right-most pixels: always the maximum
    /// x-coordinate plus one.
    pub fn get_bound_x(&self) -> (r: u32)
        ensures
            r == self@.bound_x(),
    {
        proof {
            use_type_invariant(self);
        }
        self.min_x + self.width
    }

    /// The y-coordinate right after the bottom-most pixels: always the maximum
    /// y-coordinate plus one.
    pub fn get_bound_y(&self) -> (r: u32)
        ensures
            r == self@.bound_y(),
    {
        proof {
            use_type_invariant(self);
        }
        self.min_y + self.height
    }

    /// The width of this region, in pixels.
    pub fn get_width(&self) -> (r: u32)
        ensures
            r == self@.width,
            r > 0,
    {
        proof {
            use_type_invariant(self);
        }
        self.width
    }

    /// The height of this region, in pixels.
    pub fn get_height(&self) -> (r: u32)
        ensures
            r == self@.height,
            r > 0,
    {
        proof {
            use_type_invariant(self);
        }
        self.height
    }

    /// States that the model of every region is valid.
    pub fn is_valid(&self) -> (r: bool)
        ensures
            r,
            self@.valid(),
    {
        proof {
            use_type_invariant(self);
        }
        true
    }

    /// The sub-region of this region between the given pixel offsets, measured
    /// from the minimum corner of this region; `None` when it would have no
    /// area. Each offset added to the minimum corner must fit in a `u32`.
    pub fn child_region_from_offsets(
        &self,
        offset_min_x: u32,
        offset_min_y: u32,
        offset_bound_x: u32,
        offset_bound_y: u32,
    ) -> (r: Option<Self>)
        requires
            self@.min_x + offset_min_x <= u32::MAX,
            self@.min_y + offset_min_y <= u32::MAX,
            self@.min_x + offset_bound_x <= u32::MAX,
            self@.min_y + offset_bound_y <= u32::MAX,
        ensures
            r matches Some(c) ==> Some(c@) == child_model(
                self@,
                offset_min_x as int,
                offset_min_y as int,
                offset_bound_x as int,
                offset_bound_y as int,
            ),
            r is None <==> child_model(
                self@,
                offset_min_x as int,
                offset_min_y as int,
                offset_bound_x as int,
                offset_bound_y as int,
            ) is None,
    {
        let min_x = self.min_x + offset_min_x;
        let min_y = self.min_y + offset_min_y;
        let bound_x = self.min_x + offset_bound_x;
        let bound_y = self.min_y + offset_bound_y;
        if bound_x > min_x && bound_y > min_y {
            Some(Self::between(min_x, min_y, bound_x, bound_y))
        } else {
            None
        }
    }

    /// The region where this region and `other` overlap, or `None` when they
    /// have no pixel in common.
    pub fn intersection(&self, other: Self) -> (r: Option<Self>)
        ensures
            r matches Some(c) ==> Some(c@) == intersect_model(self@, other@),
            r is None <==> intersect_model(self@, other@) is None,
    {
        proof {
            use_type_invariant(self);
            use_type_invariant(&other);
        }
        let min_x = if self.get_min_x() >= other.get_min_x() { self.get_min_x() } else { other.get_min_x() };
        let min_y = if self.get_min_y() >= other.get_min_y() { self.get_min_y() } else { other.get_min_y() };
        let max_x = if self.get_max_x() <= other.get_max_x() { self.get_max_x() } else { other.get_max_x() };
        let max_y = if self.get_max_y() <= other.get_max_y() { self.get_max_y() } else { other.get_max_y() };
        if min_x <= max_x && min_y <= max_y {
            Some(Self::between(min_x, min_y, max_x + 1, max_y + 1))
        } else {
            None
        }
    }
}

/// The intersection of two regions does not depend on their order.
pub proof fn lemma_intersection_symmetric(a: RegionModel, b: RegionModel)
    ensures
        intersect_model(a, b) == intersect_model(b, a),
{
}

/// The intersection of two valid regions is a valid region, and it holds
/// exactly the pixels that lie in both regions.
pub proof fn lemma_intersection_contents(a: RegionModel, b: RegionModel, x: int, y: int)
    requires
        a.valid(),
        b.valid(),
    ensures
        intersect_model(a, b) matches Some(c) ==> c.valid(),
        intersect_model(a, b) matches Some(c) ==> (c.contains(x, y) <==> (a.contains(x, y) && b.contains(x, y))),
        intersect_model(a, b) is None ==> !(a.contains(x, y) && b.contains(x, y)),
{
}

/// A valid region intersected with itself gives the region back.
pub proof fn lemma_intersection_idempotent(a: RegionModel)
    requires
        a.valid(),
    ensures
        intersect_model(a, a) == Some(a),
{
}

/// The child region spanning the full width and height of its parent is the
/// parent itself.
pub proof fn lemma_full_child_is_parent(parent: RegionModel)
    requires
        parent.valid(),
    ensures
        child_model(parent, 0, 0, parent.width, parent.height) == Some(parent),
{
}

/// The child region between the given offsets holds exactly the pixels from
/// the minimum offsets up to (not including) the bound offsets, measured from
/// the minimum corner of the parent; there is none when a bound offset does
/// not exceed its minimum offset.
pub proof fn lemma_child_contents(
    parent: RegionModel,
    offset_min_x: int,
    offset_min_y: int,
    offset_bound_x: int,
    offset_bound_y: int,
    x: int,
    y: int,
)
    ensures
        child_model(parent, offset_min_x, offset_min_y, offset_bound_x, offset_bound_y) is None <==> (offset_bound_x
            <= offset_min_x || offset_bound_y <= offset_min_y),
        child_model(parent, offset_min_x, offset_min_y, offset_bound_x, offset_bound_y) matches Some(c) ==> (c.contains(
            x,
            y,
        ) <==> (parent.min_x + offset_min_x <= x < parent.min_x + offset_bound_x && parent.min_y + offset_min_y <= y
            < parent.min_y + offset_bound_y)),
{
}

} // verus!
