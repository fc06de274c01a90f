use wgpu_glyph::{Instance, Rect};

fn rect(min_x: i64, min_y: i64, max_x: i64, max_y: i64) -> Rect {
    Rect { min_x, min_y, max_x, max_y }
}

#[test]
fn single_glyph_no_clipping() {
    let tex = rect(0, 0, 100, 100);
    let pixel = rect(10, 10, 30, 40);
    let bounds = rect(0, 0, 100, 100);
    let inst = Instance::from_vertex(tex, pixel, bounds, 7, [1, 2, 3, 4]);
    assert_eq!((inst.left_top_x, inst.left_top_y), (10, 40));
    assert_eq!((inst.right_bottom_x, inst.right_bottom_y), (30, 10));
    assert_eq!((inst.tex_left_top_x, inst.tex_left_top_y), (0, 100));
    assert_eq!((inst.tex_right_bottom_x, inst.tex_right_bottom_y), (100, 0));
    assert_eq!(inst.z, 7);
    assert_eq!(inst.color, [1, 2, 3, 4]);
}

#[test]
fn clip_right_rescales_tex() {
    let tex = rect(0, 0, 100, 100);
    let pixel = rect(0, 0, 10, 10);
    let bounds = rect(0, 0, 5, 10);
    let inst = Instance::from_vertex(tex, pixel, bounds, 0, [0; 4]);
    assert_eq!(inst.left_top_x, 0);
    assert_eq!(inst.right_bottom_x, 5);
    // half the quad survives, so half the texture span does
    assert_eq!(inst.tex_left_top_x, 0);
    assert_eq!(inst.tex_right_bottom_x, 50);
    // y axis untouched
    assert_eq!((inst.right_bottom_y, inst.left_top_y), (0, 10));
    assert_eq!((inst.tex_right_bottom_y, inst.tex_left_top_y), (0, 100));
}

#[test]
fn clip_left_rescales_tex() {
    let tex = rect(0, 0, 100, 100);
    let pixel = rect(0, 0, 10, 10);
    let bounds = rect(4, 0, 100, 10);
    let inst = Instance::from_vertex(tex, pixel, bounds, 0, [0; 4]);
    assert_eq!(inst.left_top_x, 4);
    assert_eq!(inst.right_bottom_x, 10);
    // six of ten pixels survive at the max side, so the tex min edge moves
    // to 100 - 100 * 6 / 10
    assert_eq!(inst.tex_left_top_x, 40);
    assert_eq!(inst.tex_right_bottom_x, 100);
}

#[test]
fn clip_both_axes() {
    let tex = rect(0, 0, 1000, 1000);
    let pixel = rect(10, 10, 30, 40);
    let bounds = rect(15, 20, 25, 35);
    let inst = Instance::from_vertex(tex, pixel, bounds, 0, [0; 4]);
    // quad is exactly the intersection
    assert_eq!((inst.left_top_x, inst.right_bottom_x), (15, 25));
    assert_eq!((inst.right_bottom_y, inst.left_top_y), (20, 35));
    // x: right edge 25 of span 10..30 -> tex max = 1000 * 15 / 20 = 750,
    // then left edge 15 -> tex min = 750 - 750 * 10 / 15 = 250
    assert_eq!(inst.tex_right_bottom_x, 750);
    assert_eq!(inst.tex_left_top_x, 250);
    // y: bottom edge 35 of span 10..40 -> tex max = 1000 * 25 / 30 = 833,
    // then top edge 20 -> tex min = 833 - 833 * 15 / 25 = 334
    assert_eq!(inst.tex_left_top_y, 833);
    assert_eq!(inst.tex_right_bottom_y, 334);
}

#[test]
fn rounding_is_toward_zero() {
    let tex = rect(0, 0, 10, 10);
    let pixel = rect(0, 0, 3, 3);
    let bounds = rect(0, 0, 2, 3);
    let inst = Instance::from_vertex(tex, pixel, bounds, 0, [0; 4]);
    // 10 * 2 / 3 rounds down to 6
    assert_eq!(inst.tex_right_bottom_x, 6);
}

#[test]
fn fully_outside_yields_degenerate_quad() {
    let tex = rect(0, 0, 100, 100);
    let pixel = rect(0, 0, 10, 10);
    let bounds = rect(20, 0, 30, 10);
    let inst = Instance::from_vertex(tex, pixel, bounds, 0, [0; 4]);
    // the clamped quad has negative width: an invisible instance
    assert_eq!(inst.left_top_x, 20);
    assert_eq!(inst.right_bottom_x, 10);
    assert!(inst.left_top_x > inst.right_bottom_x);
}

#[test]
fn z_and_color_bits_pass_through() {
    let tex = rect(0, 0, 100, 100);
    let pixel = rect(0, 0, 10, 10);
    let bounds = rect(0, 0, 5, 5);
    let z_bits = 0.25f32.to_bits();
    let color_bits = [1.0f32.to_bits(), 0.5f32.to_bits(), 0.0f32.to_bits(), 1.0f32.to_bits()];
    let inst = Instance::from_vertex(tex, pixel, bounds, z_bits, color_bits);
    assert_eq!(f32::from_bits(inst.z), 0.25);
    assert_eq!(f32::from_bits(inst.color[1]), 0.5);
}
