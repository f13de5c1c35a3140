use quad_renderer::frame::Color;
use quad_renderer::shape::Placement;
use quad_renderer::shape::Scalar;
use quad_renderer::shape::ShapeKind;
use quad_renderer::shape::ShapeRequest;
use quad_renderer::uniforms::AspectRatio;
use quad_renderer::uniforms::ModelTransform;
use quad_renderer::uniforms::Uniforms;

fn s(x: f32) -> Scalar {
    Scalar::from_bits(x.to_bits())
}

#[test]
fn shape_kinds_have_distinct_slots() {
    assert_eq!(ShapeKind::Rectangle.index(), 0);
    assert_eq!(ShapeKind::Ellipse.index(), 1);
}

#[test]
fn scalar_keeps_its_encoding() {
    for x in [0.0f32, -0.0, 1.0, -1.0, 0.5, 3.25, f32::MAX, f32::MIN_POSITIVE, f32::INFINITY] {
        assert_eq!(f32::from_bits(s(x).to_bits()), x);
        assert_eq!(s(x).to_bits(), x.to_bits());
    }
    assert!(f32::from_bits(s(f32::NAN).to_bits()).is_nan());
}

#[test]
fn named_encodings_are_those_of_the_numbers() {
    assert_eq!(quad_renderer::shape::ZERO, 0.0f32.to_bits());
    assert_eq!(quad_renderer::shape::QUARTER, 0.25f32.to_bits());
    assert_eq!(quad_renderer::shape::HALF, 0.5f32.to_bits());
    assert_eq!(quad_renderer::shape::THREE_QUARTERS, 0.75f32.to_bits());
    assert_eq!(quad_renderer::shape::QUARTER_TURN, (0.25 * std::f32::consts::TAU).to_bits());
    assert_eq!(quad_renderer::shape::HALF_TURN, (0.5 * std::f32::consts::TAU).to_bits());
}

#[test]
fn background_colour_is_dark_opaque_blue() {
    let c = Color::background();
    assert_eq!(f64::from_bits(c.r), 0.1);
    assert_eq!(f64::from_bits(c.g), 0.2);
    assert_eq!(f64::from_bits(c.b), 0.3);
    assert_eq!(f64::from_bits(c.a), 1.0);
}

#[test]
fn requests_carry_kind_and_placement() {
    let p = Placement { x: s(0.5), y: s(0.0), w: s(0.75), h: s(0.75), rotation: s(1.0) };
    assert_eq!(ShapeRequest::rectangle(p), ShapeRequest { kind: ShapeKind::Rectangle, placement: p });
    assert_eq!(ShapeRequest::ellipse(p), ShapeRequest { kind: ShapeKind::Ellipse, placement: p });
}

#[test]
fn new_uniforms_place_nothing() {
    let u = Uniforms::new(AspectRatio { width: 800, height: 600 });
    assert_eq!(u.model, ModelTransform::Identity);
    assert_eq!(u.aspect_ratio, AspectRatio { width: 800, height: 600 });
}

#[test]
fn update_model_matrix_replaces_the_model_only() {
    let mut u = Uniforms::new(AspectRatio { width: 4, height: 3 });
    u.update_model_matrix(s(0.5), s(-0.5), s(2.0), s(3.0), s(1.5));
    assert_eq!(
        u.model,
        ModelTransform::Placed(Placement {
            x: s(0.5),
            y: s(-0.5),
            w: s(2.0),
            h: s(3.0),
            rotation: s(1.5)
        })
    );
    assert_eq!(u.aspect_ratio, AspectRatio { width: 4, height: 3 });
    u.update_model_matrix(s(0.0), s(0.0), s(1.0), s(1.0), s(0.0));
    assert_eq!(
        u.model,
        ModelTransform::Placed(Placement {
            x: s(0.0),
            y: s(0.0),
            w: s(1.0),
            h: s(1.0),
            rotation: s(0.0)
        })
    );
}

#[test]
fn set_aspect_ratio_replaces_the_ratio_only() {
    let mut u = Uniforms::new(AspectRatio { width: 4, height: 3 });
    u.update_model_matrix(s(0.5), s(-0.5), s(2.0), s(3.0), s(1.5));
    let model = u.model;
    u.set_aspect_ratio(1920, 1080);
    assert_eq!(u.aspect_ratio, AspectRatio { width: 1920, height: 1080 });
    assert_eq!(u.model, model);
}

#[test]
fn set_aspect_ratio_keeps_a_zero_height_as_given() {
    let mut u = Uniforms::new(AspectRatio { width: 4, height: 3 });
    u.set_aspect_ratio(7, 0);
    assert_eq!(u.aspect_ratio, AspectRatio { width: 7, height: 0 });
}
