//! A model of what the presentation target shows once the submissions of a
//! frame have run, and the laws of layering that follow from their order.
//!
//! The queue runs submissions first in, first out. Each pass first clears the
//! target or keeps what it holds, then draws. Which regions of the target a
//! pass draws on is a matter of geometry that this library does not compute:
//! the laws hold for every such coverage.

use vstd::prelude::*;
use crate::frame::frame;
use crate::frame::lemma_frame_order;
use crate::frame::lemma_frame_push;
use crate::frame::Color;
use crate::frame::Submission;
use crate::shape::ShapeRequest;
use crate::uniforms::Uniforms;

verus! {

/// Says of a pass and a region of the target whether the pass, if it draws at
/// all, draws on that region.
pub type Coverage = spec_fn(Submission, int) -> bool;

/// What a region of the target shows.
pub enum Shown {
    /// What the target held before the first submission.
    Before,
    /// The colour that the pass at this place in the queue cleared to.
    Cleared(int),
    /// What the pass at this place in the queue drew.
    Drawn(int),
}

/// The pass draws on the region.
pub open spec fn writes(pass: Submission, coverage: Coverage, region: int) -> bool {
    pass.draws() && coverage(pass, region)
}

/// What `region` shows once `passes` have run in order.
pub open spec fn shown(passes: Seq<Submission>, coverage: Coverage, region: int) -> Shown
    decreases passes.len(),
{
    if passes.len() == 0 {
        Shown::Before
    } else if writes(passes.last(), coverage, region) {
        Shown::Drawn(passes.len() - 1)
    } else if passes.last().clears() {
        Shown::Cleared(passes.len() - 1)
    } else {
        shown(passes.drop_last(), coverage, region)
    }
}

/// A pass that keeps what the target holds and does not draw on a region
/// leaves that region as it was.
pub proof fn lemma_pass_elsewhere_keeps(
    passes: Seq<Submission>,
    pass: Submission,
    coverage: Coverage,
    region: int,
)
    requires
        !pass.clears(),
        !writes(pass, coverage, region),
    ensures
        shown(passes.push(pass), coverage, region) == shown(passes, coverage, region),
{
    assert(passes.push(pass).drop_last() =~= passes);
}

/// Where no shape of the frame draws on a region, the region shows the
/// background that the first pass cleared to.
pub proof fn lemma_background_shows(
    uniforms: Uniforms,
    color: Color,
    shapes: Seq<ShapeRequest>,
    coverage: Coverage,
    region: int,
)
    requires
        forall|k: int|
            0 <= k < shapes.len() ==> !coverage(
                Submission::of_request(uniforms, #[trigger] shapes[k]),
                region,
            ),
    ensures
        shown(frame(uniforms, color, shapes), coverage, region) == Shown::Cleared(0),
    decreases shapes.len(),
{
    lemma_frame_order(uniforms, color, shapes);
    if shapes.len() == 0 {
        assert(frame(uniforms, color, shapes).len() == 1);
    } else {
        let rest = shapes.drop_last();
        let pass = Submission::of_request(uniforms, shapes.last());
        assert(rest.push(shapes.last()) =~= shapes);
        lemma_frame_push(uniforms, color, rest, shapes.last());
        assert forall|k: int| 0 <= k < rest.len() implies !coverage(
            Submission::of_request(uniforms, #[trigger] rest[k]),
            region,
        ) by {
            assert(rest[k] == shapes[k]);
        }
        lemma_background_shows(uniforms, color, rest, coverage, region);
        lemma_pass_elsewhere_keeps(frame(uniforms, color, rest), pass, coverage, region);
    }
}

/// The painter's order: where several shapes of a frame draw on a region, the
/// region shows the one that was requested last. Said of the last such shape,
/// `b`: whatever was requested before it, and whether or not that drew on the
/// region too, the region shows what the pass of `b` drew.
pub proof fn lemma_later_shape_shows(
    uniforms: Uniforms,
    color: Color,
    shapes: Seq<ShapeRequest>,
    coverage: Coverage,
    region: int,
    b: int,
)
    requires
        0 <= b < shapes.len(),
        coverage(Submission::of_request(uniforms, shapes[b]), region),
        forall|k: int|
            b < k < shapes.len() ==> !coverage(
                Submission::of_request(uniforms, #[trigger] shapes[k]),
                region,
            ),
    ensures
        shown(frame(uniforms, color, shapes), coverage, region) == Shown::Drawn(b + 1),
        frame(uniforms, color, shapes)[b + 1] == Submission::of_request(uniforms, shapes[b]),
    decreases shapes.len(),
{
    lemma_frame_order(uniforms, color, shapes);
    let rest = shapes.drop_last();
    let pass = Submission::of_request(uniforms, shapes.last());
    assert(rest.push(shapes.last()) =~= shapes);
    lemma_frame_push(uniforms, color, rest, shapes.last());
    if b == shapes.len() - 1 {
        assert(frame(uniforms, color, shapes).last() == pass);
        assert(writes(pass, coverage, region));
    } else {
        assert(rest[b] == shapes[b]);
        assert forall|k: int| b < k < rest.len() implies !coverage(
            Submission::of_request(uniforms, #[trigger] rest[k]),
            region,
        ) by {
            assert(rest[k] == shapes[k]);
        }
        lemma_later_shape_shows(uniforms, color, rest, coverage, region, b);
        lemma_pass_elsewhere_keeps(frame(uniforms, color, rest), pass, coverage, region);
    }
}

/// Of two shapes that overlap, requested one after the other, the second is
/// the one that shows where they overlap.
pub proof fn lemma_second_of_two_shows(
    uniforms: Uniforms,
    color: Color,
    first: ShapeRequest,
    second: ShapeRequest,
    coverage: Coverage,
    region: int,
)
    requires
        coverage(Submission::of_request(uniforms, first), region),
        coverage(Submission::of_request(uniforms, second), region),
    ensures
        shown(frame(uniforms, color, seq![first, second]), coverage, region) == Shown::Drawn(2),
        frame(uniforms, color, seq![first, second])[2] == Submission::of_request(uniforms, second),
{
    lemma_later_shape_shows(uniforms, color, seq![first, second], coverage, region, 1);
}

/// Whatever the target held before a frame, nothing of it shows afterwards.
pub proof fn lemma_frame_leaves_nothing_stale(
    uniforms: Uniforms,
    color: Color,
    shapes: Seq<ShapeRequest>,
    coverage: Coverage,
    region: int,
)
    ensures
        shown(frame(uniforms, color, shapes), coverage, region) != Shown::Before,
    decreases shapes.len(),
{
    lemma_frame_order(uniforms, color, shapes);
    if shapes.len() > 0 {
        let rest = shapes.drop_last();
        let pass = Submission::of_request(uniforms, shapes.last());
        assert(rest.push(shapes.last()) =~= shapes);
        lemma_frame_push(uniforms, color, rest, shapes.last());
        lemma_frame_leaves_nothing_stale(uniforms, color, rest, coverage, region);
        if !writes(pass, coverage, region) {
            lemma_pass_elsewhere_keeps(frame(uniforms, color, rest), pass, coverage, region);
        }
    } else {
        assert(frame(uniforms, color, shapes).len() == 1);
    }
}

} // verus!
