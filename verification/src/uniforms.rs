//! The transform state that every draw reads: the model transform of the shape
//! about to be drawn and the aspect ratio of the presentation target.

use vstd::prelude::*;
use crate::shape::Placement;
use crate::shape::Scalar;

verus! {

/// What the model matrix is derived from.
///
/// For `Placed(p)` the matrix is `translate(p.x, p.y, 0) * rotate_z(p.rotation)
/// * scale(p.w, p.h, 1)`: applied to a vertex it scales first, then rotates,
/// then translates. The product itself is taken where the numbers can be
/// computed with; here the transform is known by its parameters.
#[derive(Clone, Copy, Debug, PartialEq, Eq, Structural)]
pub enum ModelTransform {
    Identity,
    Placed(Placement),
}

/// The ratio `width / height`, kept exactly as its two terms.
#[derive(Clone, Copy, Debug, PartialEq, Eq, Structural)]
pub struct AspectRatio {
    pub width: u32,
    pub height: u32,
}

/// The block of values that is written to uniform memory before a draw.
///
/// The model transform is scratch state: it is overwritten for each shape and
/// means nothing between draws.
#[derive(Clone, Copy, Debug, PartialEq, Eq, Structural)]
pub struct Uniforms {
    pub model: ModelTransform,
    pub aspect_ratio: AspectRatio,
}

impl Uniforms {
    /// The block for a target of the given aspect ratio, with no shape placed yet.
    pub fn new(aspect_ratio: AspectRatio) -> (u: Uniforms)
        ensures
            u == (Uniforms { model: ModelTransform::Identity, aspect_ratio }),
    {
        Uniforms { model: ModelTransform::Identity, aspect_ratio }
    }

    /// Replaces the model transform by that of a shape at `(x, y)` with half
    /// extents `(w, h)`, rotated by `rotation`. The aspect ratio stays.
    pub fn update_model_matrix(&mut self, x: Scalar, y: Scalar, w: Scalar, h: Scalar, rotation: Scalar)
        ensures
            final(self).model == ModelTransform::Placed(Placement { x, y, w, h, rotation }),
            final(self).aspect_ratio == old(self).aspect_ratio,
    {
        self.model = ModelTransform::Placed(Placement { x, y, w, h, rotation });
    }

    /// Replaces the aspect ratio by `width / height`. The model transform stays.
    pub fn set_aspect_ratio(&mut self, width: u32, height: u32)
        ensures
            final(self).aspect_ratio == (AspectRatio { width, height }),
            final(self).model == old(self).model,
    {
        self.aspect_ratio = AspectRatio { width, height };
    }
}

} // verus!
