use wgpu_glyph::Region;

#[test]
fn region_default_is_empty_at_origin() {
    let region = Region::default();
    assert_eq!((region.x, region.y), (0, 0));
    assert_eq!((region.width, region.height), (0, 0));
}

#[test]
fn region_is_plain_data() {
    let region = Region { x: 10, y: 20, width: 300, height: 400 };
    let copy = region;
    assert_eq!(copy, region);
    assert_eq!(copy.width, 300);
}
