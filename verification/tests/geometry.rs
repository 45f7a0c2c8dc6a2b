use rusty_pixel::geometry::{
    aspect, compute_resize_other, compute_scale_geometry, fit_within, Aspect,
};
use rusty_pixel::image_modifier::orientation::OrientationModifier;
use rusty_pixel::image_modifier::resize::ResizeModifier;
use rusty_pixel::image_modifier::{Modifier, PixelOp};

#[test]
fn aspect_orders_the_edges() {
    assert_eq!(aspect(400, 800), Aspect { num: 800, den: 400 });
    assert_eq!(aspect(800, 400), Aspect { num: 800, den: 400 });
    assert_eq!(aspect(400, 400), Aspect { num: 400, den: 400 });
}

#[test]
fn resize_width_keeps_the_source_shape() {
    // A 400 by 800 source resized to width 200: the requested box is
    // 200 by 400, which already has the source shape.
    let m = Modifier::Resize(ResizeModifier { height: false, pixels: 200 });
    let ops = m.apply(400, 800);
    assert_eq!(ops, vec![PixelOp::Thumbnail { width: 200, height: 400, crop: false }]);
    assert_eq!(fit_within(400, 800, 200, 400), (200, 400));
}

#[test]
fn resize_height_keeps_the_source_shape() {
    // The same source resized to height 200: the requested box is 400
    // by 200, and fitting the tall source inside it gives 100 by 200.
    let m = Modifier::Resize(ResizeModifier { height: true, pixels: 200 });
    let ops = m.apply(400, 800);
    assert_eq!(ops, vec![PixelOp::Thumbnail { width: 400, height: 200, crop: false }]);
    assert_eq!(fit_within(400, 800, 400, 200), (100, 200));
}

#[test]
fn resize_other_edge_is_floored() {
    assert_eq!(compute_resize_other(200, 400, 800), 400);
    assert_eq!(compute_resize_other(100, 300, 200), 150);
    assert_eq!(compute_resize_other(99, 200, 300), 148);
}

#[test]
fn scale_geometry_square_with_margin() {
    // Ratio one, margin twenty percent, landscape 800 by 400 source,
    // no configured size: base 800, canvas 800 by 800, margin 160.
    let g = compute_scale_geometry(Aspect { num: 400, den: 400 }, 20, None, 800, 400);
    assert_eq!(g.thumb_width, 640);
    assert_eq!(g.thumb_height, 640);
    assert_eq!(g.area_width, 800);
    assert_eq!(g.area_height, 800);
}

#[test]
fn scale_geometry_without_margin() {
    let g = compute_scale_geometry(Aspect { num: 400, den: 400 }, 0, Some(400), 800, 400);
    assert_eq!(g.thumb_width, 400);
    assert_eq!(g.thumb_height, 400);
    assert_eq!(g.area_width, 400);
    assert_eq!(g.area_height, 400);
}

#[test]
fn scale_geometry_derives_ratio_from_source() {
    // A zero numerator derives the ratio from the 2000 by 1000 source:
    // two to one, so a size of 1024 gives a 1024 by 512 canvas.
    let g = compute_scale_geometry(Aspect { num: 0, den: 0 }, 0, Some(1024), 2000, 1000);
    assert_eq!(g.thumb_width, 1024);
    assert_eq!(g.thumb_height, 512);
    assert_eq!(g.area_width, 1024);
    assert_eq!(g.area_height, 512);
}

#[test]
fn scale_geometry_portrait_mirrors_landscape() {
    let g = compute_scale_geometry(Aspect { num: 800, den: 400 }, 10, Some(600), 500, 1000);
    // Portrait: base 600 along the height; the width canvas edge is
    // 600 * 400 / 800 = 300 and the margin is a tenth of it.
    assert_eq!(g.area_width, 300);
    assert_eq!(g.area_height, 600);
    assert_eq!(g.thumb_width, 270);
    assert_eq!(g.thumb_height, 570);
}

#[test]
fn scale_geometry_margin_above_hundred_goes_negative() {
    // The formulas floor; a margin above one hundred percent leaves a
    // negative thumbnail edge, which the pixel capability then rejects.
    let g = compute_scale_geometry(Aspect { num: 400, den: 400 }, 150, Some(400), 400, 400);
    assert_eq!(g.thumb_width, -200);
    assert_eq!(g.thumb_height, -200);
}

#[test]
fn fit_within_exact_and_tight_boxes() {
    assert_eq!(fit_within(2000, 1000, 1024, 512), (1024, 512));
    assert_eq!(fit_within(2000, 1000, 512, 1024), (512, 256));
    assert_eq!(fit_within(100, 100, 50, 80), (50, 50));
}

#[test]
fn orientation_applies_once_and_settles() {
    // Forcing landscape on a portrait source turns it; running the
    // same step on the turned edges is a no-op.
    let m = Modifier::Orientation(OrientationModifier { portrait: false });
    assert_eq!(m.apply(400, 800), vec![PixelOp::Rotate90]);
    assert_eq!(m.apply(800, 400), vec![]);
}

#[test]
fn orientation_matching_source_is_a_no_op() {
    let m = Modifier::Orientation(OrientationModifier { portrait: true });
    assert_eq!(m.apply(400, 800), vec![]);
    assert_eq!(m.apply(800, 400), vec![PixelOp::Rotate90]);
    // A square source is neither, so neither direction turns it.
    let landscape = Modifier::Orientation(OrientationModifier { portrait: false });
    assert_eq!(landscape.apply(500, 500), vec![]);
    assert_eq!(m.apply(500, 500), vec![]);
}

#[test]
fn fit_within_may_upscale() {
    assert_eq!(fit_within(100, 100, 200, 300), (200, 200));
}
