use knukki::RenderRegion;

/// The pixel offset of a relative coordinate within a region side, rounded as
/// the renderer rounds it.
fn offset(size: u32, relative: f32) -> u32 {
    (size as f32 * relative).round() as u32
}

fn child_region(
    region: &RenderRegion,
    relative_min_x: f32,
    relative_min_y: f32,
    relative_max_x: f32,
    relative_max_y: f32,
) -> Option<RenderRegion> {
    region.child_region_from_offsets(
        offset(region.get_width(), relative_min_x),
        offset(region.get_height(), relative_min_y),
        offset(region.get_width(), relative_max_x),
        offset(region.get_height(), relative_max_y),
    )
}

#[test]
fn region_test_with_size() {
    let region = RenderRegion::with_size(10, 50, 20, 50);
    assert_eq!(10, region.get_min_x());
    assert_eq!(50, region.get_min_y());
    assert_eq!(20, region.get_width());
    assert_eq!(50, region.get_height());
    assert_eq!(29, region.get_max_x());
    assert_eq!(99, region.get_max_y());
    assert_eq!(30, region.get_bound_x());
    assert_eq!(100, region.get_bound_y());
}

#[test]
fn region_test_between() {
    let region = RenderRegion::between(100, 80, 200, 150);
    assert_eq!(100, region.get_min_x());
    assert_eq!(80, region.get_min_y());
    assert_eq!(100, region.get_width());
    assert_eq!(70, region.get_height());
    assert_eq!(199, region.get_max_x());
    assert_eq!(149, region.get_max_y());
    assert_eq!(200, region.get_bound_x());
    assert_eq!(150, region.get_bound_y());
}

#[test]
fn test_child_region() {
    let parent = RenderRegion::between(200, 500, 300, 600);
    assert_eq!(
        Some(RenderRegion::between(230, 530, 270, 570)),
        child_region(&parent, 0.3, 0.3, 0.7, 0.7)
    );
    assert_eq!(
        Some(RenderRegion::between(200, 500, 250, 550)),
        child_region(&parent, 0.0, 0.0, 0.5, 0.5)
    );
    assert_eq!(
        Some(RenderRegion::between(200, 550, 250, 600)),
        child_region(&parent, 0.0, 0.5, 0.5, 1.0)
    );
    assert_eq!(Some(parent), child_region(&parent, 0.0, 0.0, 1.0, 1.0));

    let mini_region = RenderRegion::with_size(100, 200, 1, 1);
    assert_eq!(Some(mini_region), child_region(&mini_region, 0.45, 0.45, 0.55, 0.55));
    assert_eq!(Some(mini_region), child_region(&mini_region, 0.0, 0.0, 1.0, 1.0));
    assert!(child_region(&mini_region, 0.1, 0.1, 0.4, 0.4).is_none());
}

#[test]
fn test_intersection() {
    let region1 = RenderRegion::between(0, 0, 20, 20);
    let region_above = RenderRegion::between(0, 20, 20, 40);
    assert!(region1.intersection(region_above).is_none());

    let region_corner = RenderRegion::between(15, 16, 30, 35);
    assert_eq!(
        Some(RenderRegion::between(15, 16, 20, 20)),
        region1.intersection(region_corner)
    );

    let region_inner = RenderRegion::between(5, 6, 7, 8);
    assert_eq!(Some(region_inner), region1.intersection(region_inner));
    assert_eq!(Some(region_inner), region_inner.intersection(region1));

    let region_far = RenderRegion::with_size(100, 200, 300, 400);
    assert!(region1.intersection(region_far).is_none());

    let region_mini = RenderRegion::with_size(19, 19, 5, 5);
    assert_eq!(Some(RenderRegion::with_size(19, 19, 1, 1)), region1.intersection(region_mini));
}

#[test]
fn test_child_region_doc_examples() {
    let region = RenderRegion::between(20, 20, 30, 30);
    assert_eq!(Some(region), child_region(&region, 0.0, 0.0, 1.0, 1.0));
    assert_eq!(
        Some(RenderRegion::between(20, 20, 25, 25)),
        child_region(&region, 0.0, 0.0, 0.5, 0.5)
    );
    assert!(child_region(&region, 0.0, 0.0, 0.001, 0.001).is_none());
}

#[test]
fn test_intersection_doc_examples_symmetric() {
    let left = RenderRegion::between(0, 0, 40, 10);
    let right = RenderRegion::between(30, 0, 60, 10);
    let intersection = Some(RenderRegion::between(30, 0, 40, 10));
    assert_eq!(intersection, left.intersection(right));
    assert_eq!(intersection, right.intersection(left));

    let far_right = RenderRegion::between(100, 0, 200, 10);
    assert!(left.intersection(far_right).is_none());
}

#[test]
fn test_intersection_with_itself() {
    let region = RenderRegion::with_size(3, 4, 5, 6);
    assert_eq!(Some(region), region.intersection(region));
}

#[test]
fn test_child_region_from_offsets_exact() {
    let region = RenderRegion::with_size(10, 20, 30, 40);
    assert_eq!(
        Some(RenderRegion::between(12, 23, 15, 28)),
        region.child_region_from_offsets(2, 3, 5, 8)
    );
    // Equal offsets give no area
    assert!(region.child_region_from_offsets(4, 3, 4, 8).is_none());
    assert!(region.child_region_from_offsets(2, 9, 5, 8).is_none());
    assert!(region.is_valid());
}
