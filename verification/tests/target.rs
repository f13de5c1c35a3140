use cgmath::Matrix4;
use cgmath::Rad;
use cgmath::Vector3;
use cgmath::Vector4;
use quad_renderer::frame::Color;
use quad_renderer::frame::LoadOp;
use quad_renderer::frame::Submission;
use quad_renderer::shape::Placement;
use quad_renderer::shape::Scalar;
use quad_renderer::shape::ShapeKind;
use quad_renderer::shape::ShapeRequest;
use quad_renderer::state::State;
use quad_renderer::surface::PhysicalSize;
use quad_renderer::uniforms::ModelTransform;

fn s(x: f32) -> Scalar {
    Scalar::from_bits(x.to_bits())
}

fn place(x: f32, y: f32, w: f32, h: f32, rotation: f32) -> Placement {
    Placement { x: s(x), y: s(y), w: s(w), h: s(h), rotation: s(rotation) }
}

/// The model matrix of a transform, as the program that uploads it takes it.
fn model_matrix(model: ModelTransform) -> Matrix4<f32> {
    match model {
        ModelTransform::Identity => Matrix4::from_scale(1.0),
        ModelTransform::Placed(p) => {
            let f = |v: Scalar| f32::from_bits(v.to_bits());
            Matrix4::from_translation(Vector3 { x: f(p.x), y: f(p.y), z: 0.0 })
                * Matrix4::from_angle_z(Rad(f(p.rotation)))
                * Matrix4::from_nonuniform_scale(f(p.w), f(p.h), 1.0)
        }
    }
}

/// A target of sample points that remembers, for each point, the submission
/// that wrote it last.
struct RecordingTarget {
    points: Vec<(f32, f32)>,
    last_write: Vec<Option<usize>>,
}

impl RecordingTarget {
    fn new(points: Vec<(f32, f32)>) -> Self {
        let last_write = vec![None; points.len()];
        RecordingTarget { points, last_write }
    }

    fn covers(pass: &Submission, point: (f32, f32)) -> bool {
        if pass.end_index <= pass.first_index || pass.end_instance <= pass.first_instance {
            return false;
        }
        let (x, y, w, h) = match pass.uniforms.model {
            ModelTransform::Identity => (0.0, 0.0, 1.0, 1.0),
            ModelTransform::Placed(p) => (
                f32::from_bits(p.x.to_bits()),
                f32::from_bits(p.y.to_bits()),
                f32::from_bits(p.w.to_bits()),
                f32::from_bits(p.h.to_bits()),
            ),
        };
        let (dx, dy) = ((point.0 - x) / w, (point.1 - y) / h);
        match pass.pipeline {
            ShapeKind::Rectangle => dx.abs() <= 1.0 && dy.abs() <= 1.0,
            ShapeKind::Ellipse => dx * dx + dy * dy <= 1.0,
        }
    }

    fn submit(&mut self, index: usize, pass: &Submission) {
        for k in 0..self.points.len() {
            if matches!(pass.load, LoadOp::Clear(_)) {
                self.last_write[k] = Some(index);
            }
            if Self::covers(pass, self.points[k]) {
                self.last_write[k] = Some(index);
            }
        }
    }

    fn run(&mut self, passes: &[Submission]) {
        for (index, pass) in passes.iter().enumerate() {
            self.submit(index, pass);
        }
    }
}

fn frame_of(shapes: &Vec<ShapeRequest>) -> Vec<Submission> {
    let mut state = State::new(PhysicalSize { width: 800, height: 600 });
    state.begin_rendering(Ok(())).unwrap();
    let passes = state.draw_scene(Color::background(), shapes).unwrap();
    state.end_rendering().unwrap();
    passes
}

#[test]
fn later_shape_shows_where_two_overlap() {
    let a = ShapeRequest::rectangle(place(0.0, 0.0, 0.5, 0.5, 0.0));
    let b = ShapeRequest::ellipse(place(0.25, 0.25, 0.5, 0.5, 0.0));
    let overlap = (0.25, 0.25);
    let only_a = (-0.4, -0.4);
    let only_b = (0.7, 0.25);
    let neither = (0.9, -0.9);
    let mut target = RecordingTarget::new(vec![overlap, only_a, only_b, neither]);
    target.run(&frame_of(&vec![a, b]));
    assert_eq!(target.last_write, vec![Some(2), Some(1), Some(2), Some(0)]);
    let mut target = RecordingTarget::new(vec![overlap, only_a, only_b, neither]);
    target.run(&frame_of(&vec![b, a]));
    assert_eq!(target.last_write, vec![Some(2), Some(2), Some(1), Some(0)]);
}

#[test]
fn last_of_many_overlapping_shapes_shows() {
    let shapes: Vec<ShapeRequest> =
        (0..7).map(|k| ShapeRequest::rectangle(place(0.0, 0.0, 1.0 - 0.1 * k as f32, 1.0, 0.0))).collect();
    let mut target = RecordingTarget::new(vec![(0.0, 0.0), (0.95, 0.0), (0.65, 0.0)]);
    target.run(&frame_of(&shapes));
    assert_eq!(target.last_write, vec![Some(7), Some(1), Some(4)]);
}

#[test]
fn frame_leaves_nothing_of_an_earlier_frame() {
    let mut target = RecordingTarget::new(vec![(0.0, 0.0), (0.9, 0.9)]);
    target.run(&frame_of(&vec![ShapeRequest::rectangle(place(0.0, 0.0, 1.0, 1.0, 0.0))]));
    assert_eq!(target.last_write, vec![Some(1), Some(1)]);
    target.run(&frame_of(&vec![ShapeRequest::ellipse(place(0.0, 0.0, 0.5, 0.5, 0.0))]));
    assert_eq!(target.last_write, vec![Some(1), Some(0)]);
}

#[test]
fn background_alone_writes_every_point_by_its_clear() {
    let mut target = RecordingTarget::new(vec![(0.0, 0.0), (-1.0, 1.0), (0.3, -0.6)]);
    let passes = frame_of(&Vec::new());
    assert_eq!(passes.len(), 1);
    target.run(&passes);
    assert_eq!(target.last_write, vec![Some(0), Some(0), Some(0)]);
}

fn assert_close(m: Matrix4<f32>, rows: [[f32; 4]; 4]) {
    for r in 0..4 {
        for c in 0..4 {
            assert!((m[c][r] - rows[r][c]).abs() < 1e-6, "row {} column {}: {}", r, c, m[c][r]);
        }
    }
}

#[test]
fn model_matrix_without_rotation_scales_then_translates() {
    let mut state = State::new(PhysicalSize { width: 800, height: 600 });
    state.begin_rendering(Ok(())).unwrap();
    let pass = state.rect(s(0.5), s(-0.25), s(2.0), s(3.0), s(0.0)).unwrap();
    let m = model_matrix(pass.uniforms.model);
    assert_close(
        m,
        [[2.0, 0.0, 0.0, 0.5], [0.0, 3.0, 0.0, -0.25], [0.0, 0.0, 1.0, 0.0], [0.0, 0.0, 0.0, 1.0]],
    );
    let corner = m * Vector4::new(1.0, 1.0, 0.0, 1.0);
    assert_eq!((corner.x, corner.y), (2.5, 2.75));
}

#[test]
fn model_matrix_with_quarter_turn_rotates_between_scale_and_translation() {
    let mut state = State::new(PhysicalSize { width: 800, height: 600 });
    state.begin_rendering(Ok(())).unwrap();
    let pass = state
        .ellipse(s(0.5), s(-0.25), s(2.0), s(3.0), Scalar::from_bits(quad_renderer::shape::QUARTER_TURN))
        .unwrap();
    let m = model_matrix(pass.uniforms.model);
    assert_close(
        m,
        [[0.0, -3.0, 0.0, 0.5], [2.0, 0.0, 0.0, -0.25], [0.0, 0.0, 1.0, 0.0], [0.0, 0.0, 0.0, 1.0]],
    );
    let corner = m * Vector4::new(1.0, 0.0, 0.0, 1.0);
    assert!((corner.x - 0.5).abs() < 1e-6 && (corner.y - 1.75).abs() < 1e-6);
}

#[test]
fn model_matrix_of_a_fresh_state_is_the_identity() {
    let state = State::new(PhysicalSize { width: 800, height: 600 });
    let m = model_matrix(state.update().model);
    assert_close(
        m,
        [[1.0, 0.0, 0.0, 0.0], [0.0, 1.0, 0.0, 0.0], [0.0, 0.0, 1.0, 0.0], [0.0, 0.0, 0.0, 1.0]],
    );
}
