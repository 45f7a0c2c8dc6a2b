use vstd::prelude::*;

use crate::geometry::{spec_resize_other, spec_scale_geometry};

pub mod blackandwhite;
pub mod environment;
pub mod orientation;
pub mod resize;
pub mod scale;
pub mod trim;

verus! {

/// One call into the pixel capability, with every numeric parameter
/// fixed. The capability performs it against the working image (and,
/// for the composite, the prefetched background image).
#[derive(Clone, Copy, PartialEq, Debug)]
pub enum PixelOp {
    /// Quarter turn; swaps the image edges.
    Rotate90,
    /// Drops the colour channels.
    Desaturate,
    /// Cuts the border matching the given background tone.
    TrimBorder { background: (u8, u8, u8) },
    /// Scales into the given box; cropped, it fills the box exactly,
    /// uncropped it keeps the source shape and fits inside.
    Thumbnail { width: i32, height: i32, crop: bool },
    /// Centres the working image on a white canvas of the given edges.
    Pad { width: i32, height: i32 },
    /// Lays the working image over the background image at the offset.
    Composite { x: i32, y: i32 },
}

/// One transform step of a pipeline: the closed set of steps a request
/// can ask for, each carrying its recognizer's data.
#[derive(Debug, Clone, PartialEq)]
pub enum Modifier {
    Orientation(orientation::OrientationModifier),
    BlackAndWhite(blackandwhite::BlackAndWhiteModifier),
    Trim(trim::TrimModifier),
    Scale(scale::ScaleModifier),
    Resize(resize::ResizeModifier),
    Environment(environment::EnvironmentModifier),
}

/// The pixel-capability calls one step makes against a working image
/// of the given edges.
pub open spec fn spec_apply(m: Modifier, w: int, h: int) -> Seq<PixelOp> {
    match m {
        Modifier::Orientation(o) => {
            if orientation::spec_rotates(o.portrait, w, h) {
                seq![PixelOp::Rotate90]
            } else {
                Seq::empty()
            }
        },
        Modifier::BlackAndWhite(_) => seq![PixelOp::Desaturate],
        Modifier::Trim(t) => seq![PixelOp::TrimBorder { background: t.background }],
        Modifier::Scale(s) => {
            let (tw, th, aw, ah) = spec_scale_geometry(
                s.aspect,
                s.margin_percentage as int,
                s.size,
                w,
                h,
            );
            seq![
                PixelOp::Thumbnail { width: tw as i32, height: th as i32, crop: s.crop },
                PixelOp::Pad { width: aw as i32, height: ah as i32 },
            ]
        },
        Modifier::Resize(r) => {
            let other = spec_resize_other(r.pixels as int, w, h) as i32;
            if r.height {
                seq![PixelOp::Thumbnail { width: other, height: r.pixels, crop: false }]
            } else {
                seq![PixelOp::Thumbnail { width: r.pixels, height: other, crop: false }]
            }
        },
        Modifier::Environment(e) => seq![
            PixelOp::Thumbnail { width: e.opts.width, height: e.opts.height, crop: true },
            PixelOp::Composite { x: e.opts.x, y: e.opts.y },
        ],
    }
}

/// The orientation step settles after one application: run on the
/// edges its own outcome has, it asks the capability for nothing
/// further.
pub proof fn lemma_orientation_settles(o: orientation::OrientationModifier, w: int, h: int)
    ensures
        ({
            let (w1, h1) = orientation::spec_oriented(o.portrait, w, h);
            spec_apply(Modifier::Orientation(o), w1, h1) == Seq::<PixelOp>::empty()
        }),
{
    orientation::lemma_orientation_idempotent(o.portrait, w, h);
}

impl Modifier {
    /// The calls this step makes, dispatched over the closed set; the
    /// capability then runs them in order and reports the new edges.
    pub fn apply(&self, src_w: i32, src_h: i32) -> (ops: Vec<PixelOp>)
        requires
            1 <= src_w,
            1 <= src_h,
        ensures
            ops@ == spec_apply(*self, src_w as int, src_h as int),
    {
        let mut ops: Vec<PixelOp> = Vec::new();
        match self {
            Modifier::Orientation(o) => {
                if (o.portrait && src_w > src_h) || (!o.portrait && src_h > src_w) {
                    ops.push(PixelOp::Rotate90);
                }
            },
            Modifier::BlackAndWhite(_) => {
                ops.push(PixelOp::Desaturate);
            },
            Modifier::Trim(t) => {
                ops.push(PixelOp::TrimBorder { background: t.background });
            },
            Modifier::Scale(s) => {
                let g = crate::geometry::compute_scale_geometry(
                    s.aspect,
                    s.margin_percentage,
                    s.size,
                    src_w,
                    src_h,
                );
                ops.push(PixelOp::Thumbnail {
                    width: g.thumb_width,
                    height: g.thumb_height,
                    crop: s.crop,
                });
                ops.push(PixelOp::Pad { width: g.area_width, height: g.area_height });
            },
            Modifier::Resize(r) => {
                let other = crate::geometry::compute_resize_other(r.pixels, src_w, src_h);
                if r.height {
                    ops.push(PixelOp::Thumbnail { width: other, height: r.pixels, crop: false });
                } else {
                    ops.push(PixelOp::Thumbnail { width: r.pixels, height: other, crop: false });
                }
            },
            Modifier::Environment(e) => {
                ops.push(PixelOp::Thumbnail {
                    width: e.opts.width,
                    height: e.opts.height,
                    crop: true,
                });
                ops.push(PixelOp::Composite { x: e.opts.x, y: e.opts.y });
            },
        }
        proof {
            assert(ops@ =~= spec_apply(*self, src_w as int, src_h as int));
        }
        ops
    }
}

} // verus!
