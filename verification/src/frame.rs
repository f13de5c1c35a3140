//! What one frame is made of: a background pass that clears the target, then
//! one pass per shape that draws over what is there.

use vstd::prelude::*;
use crate::geometry::IndexFormat;
use crate::geometry::INDEX_COUNT;
use crate::shape::Placement;
use crate::shape::Scalar;
use crate::shape::ShapeKind;
use crate::shape::ShapeRequest;
use crate::uniforms::ModelTransform;
use crate::uniforms::Uniforms;

verus! {

/// A colour with alpha. Each channel is a double-precision number, carried by
/// its IEEE 754 binary64 encoding.
#[derive(Clone, Copy, Debug, PartialEq, Eq, Structural)]
pub struct Color {
    pub r: u64,
    pub g: u64,
    pub b: u64,
    pub a: u64,
}

/// Encoding of the double-precision number nearest to 1/10.
pub const TENTH: u64 = 0x3FB9_9999_9999_999A;

/// Encoding of the double-precision number nearest to 2/10.
pub const TWO_TENTHS: u64 = 0x3FC9_9999_9999_999A;

/// Encoding of the double-precision number nearest to 3/10.
pub const THREE_TENTHS: u64 = 0x3FD3_3333_3333_3333;

/// Encoding of 1 in double precision.
pub const ONE: u64 = 0x3FF0_0000_0000_0000;

impl Color {
    /// The colour of the scene's background: a dark, opaque blue.
    pub open spec fn backdrop() -> Color {
        Color { r: TENTH, g: TWO_TENTHS, b: THREE_TENTHS, a: ONE }
    }

    /// The colour that the scene is cleared to.
    pub fn background() -> (c: Color)
        ensures
            c == Color::backdrop(),
    {
        Color { r: TENTH, g: TWO_TENTHS, b: THREE_TENTHS, a: ONE }
    }
}

/// What a pass does to the target before it draws.
#[derive(Clone, Copy, Debug, PartialEq, Eq, Structural)]
pub enum LoadOp {
    /// Replaces what the target holds by one colour.
    Clear(Color),
    /// Keeps what the target holds.
    Load,
}

/// One submission to the queue: a write of the uniform block, then a single
/// render pass against the acquired frame with a single indexed draw in it.
///
/// The write comes first, so the draw of this submission reads `uniforms` and
/// no draw recorded before it does.
#[derive(Clone, Copy, Debug, PartialEq, Eq, Structural)]
pub struct Submission {
    pub uniforms: Uniforms,
    pub load: LoadOp,
    pub store: bool,
    /// The kind whose pipeline is bound.
    pub pipeline: ShapeKind,
    pub index_format: IndexFormat,
    pub first_index: u32,
    pub end_index: u32,
    pub base_vertex: i32,
    pub first_instance: u32,
    pub end_instance: u32,
}

impl Submission {
    /// Number of indices that the draw runs over.
    pub open spec fn index_len(self) -> int {
        self.end_index - self.first_index
    }

    /// The pass clears the target.
    pub open spec fn clears(self) -> bool {
        self.load is Clear
    }

    /// The pass rasterizes something.
    pub open spec fn draws(self) -> bool {
        self.first_index < self.end_index && self.first_instance < self.end_instance
    }

    /// The background pass: clears to `color` and draws over an empty index
    /// range, with the rectangle pipeline bound. The clear is all it does.
    pub open spec fn background(uniforms: Uniforms, color: Color) -> Submission {
        Submission {
            uniforms,
            load: LoadOp::Clear(color),
            store: true,
            pipeline: ShapeKind::Rectangle,
            index_format: IndexFormat::Uint16,
            first_index: 0,
            end_index: 0,
            base_vertex: 0,
            first_instance: 0,
            end_instance: 1,
        }
    }

    /// The pass of one shape: keeps what the target holds and draws one
    /// instance of the whole index list with the pipeline of `kind`.
    pub open spec fn shape(uniforms: Uniforms, kind: ShapeKind) -> Submission {
        Submission {
            uniforms,
            load: LoadOp::Load,
            store: true,
            pipeline: kind,
            index_format: IndexFormat::Uint16,
            first_index: 0,
            end_index: INDEX_COUNT,
            base_vertex: 0,
            first_instance: 0,
            end_instance: 1,
        }
    }

    /// The pass of the shape that `request` asks for, under the aspect ratio of `uniforms`.
    pub open spec fn of_request(uniforms: Uniforms, request: ShapeRequest) -> Submission {
        Submission::shape(
            Uniforms { model: ModelTransform::Placed(request.placement), ..uniforms },
            request.kind,
        )
    }
}

/// The submissions of one frame, in the order in which they are issued: the
/// background pass, then one pass per shape in the order of the requests.
pub open spec fn frame(uniforms: Uniforms, color: Color, shapes: Seq<ShapeRequest>) -> Seq<
    Submission,
> {
    seq![Submission::background(uniforms, color)] + Seq::new(
        shapes.len(),
        |i: int| Submission::of_request(uniforms, shapes[i]),
    )
}

/// The model transform that is left behind once `shapes` have been drawn.
pub open spec fn last_model(before: ModelTransform, shapes: Seq<ShapeRequest>) -> ModelTransform {
    if shapes.len() == 0 {
        before
    } else {
        ModelTransform::Placed(shapes.last().placement)
    }
}

/// The two shapes of the scene: a rectangle to the right of the centre, turned
/// by half a turn, and, drawn after it, a small ellipse at height 0, turned by
/// a quarter turn, whose horizontal position is `ellipse_x`.
pub open spec fn scene(ellipse_x: Scalar) -> Seq<ShapeRequest> {
    seq![
        ShapeRequest {
            kind: ShapeKind::Rectangle,
            placement: Placement {
                x: Scalar { bits: crate::shape::HALF },
                y: Scalar { bits: crate::shape::ZERO },
                w: Scalar { bits: crate::shape::THREE_QUARTERS },
                h: Scalar { bits: crate::shape::THREE_QUARTERS },
                rotation: Scalar { bits: crate::shape::HALF_TURN },
            },
        },
        ShapeRequest {
            kind: ShapeKind::Ellipse,
            placement: Placement {
                x: ellipse_x,
                y: Scalar { bits: crate::shape::ZERO },
                w: Scalar { bits: crate::shape::QUARTER },
                h: Scalar { bits: crate::shape::QUARTER },
                rotation: Scalar { bits: crate::shape::QUARTER_TURN },
            },
        },
    ]
}

/// A frame of `n` shapes is `n + 1` submissions. The first is the background
/// pass: it clears, and its index range is empty. Each of the others belongs
/// to the request at its place: it keeps what the target holds, draws the
/// whole index list with the pipeline of the request's kind, and does so under
/// the request's own transform.
pub proof fn lemma_frame_order(uniforms: Uniforms, color: Color, shapes: Seq<ShapeRequest>)
    ensures
        frame(uniforms, color, shapes).len() == shapes.len() + 1,
        frame(uniforms, color, shapes)[0] == Submission::background(uniforms, color),
        frame(uniforms, color, shapes)[0].load == LoadOp::Clear(color),
        frame(uniforms, color, shapes)[0].index_len() == 0,
        !frame(uniforms, color, shapes)[0].draws(),
        forall|i: int|
            1 <= i <= shapes.len() ==> {
                let s = #[trigger] frame(uniforms, color, shapes)[i];
                &&& s == Submission::of_request(uniforms, shapes[i - 1])
                &&& s.load == LoadOp::Load
                &&& !s.clears()
                &&& s.draws()
                &&& s.index_len() == crate::geometry::triangles().len()
                &&& s.pipeline == shapes[i - 1].kind
                &&& s.uniforms.model == ModelTransform::Placed(shapes[i - 1].placement)
                &&& s.uniforms.aspect_ratio == uniforms.aspect_ratio
            },
{
    crate::geometry::lemma_quad_is_consistent();
}

/// Adding a request to a scene adds its pass at the end of the frame and
/// changes nothing before it.
pub proof fn lemma_frame_push(
    uniforms: Uniforms,
    color: Color,
    shapes: Seq<ShapeRequest>,
    request: ShapeRequest,
)
    ensures
        frame(uniforms, color, shapes.push(request)) == frame(uniforms, color, shapes).push(
            Submission::of_request(uniforms, request),
        ),
{
    assert(frame(uniforms, color, shapes.push(request)) =~= frame(uniforms, color, shapes).push(
        Submission::of_request(uniforms, request),
    ));
}

} // verus!
