use quad_renderer::geometry::Vertex;
use quad_renderer::pipeline::entry_point;
use quad_renderer::pipeline::BlendFactor;
use quad_renderer::pipeline::BlendOperation;
use quad_renderer::pipeline::BlendState;
use quad_renderer::pipeline::BufferBindingType;
use quad_renderer::pipeline::CullMode;
use quad_renderer::pipeline::FrontFace;
use quad_renderer::pipeline::PolygonMode;
use quad_renderer::pipeline::PrimitiveTopology;
use quad_renderer::pipeline::RenderPipelineFactory;
use quad_renderer::pipeline::ShaderModule;
use quad_renderer::pipeline::ShaderStage;
use quad_renderer::pipeline::COLOR_WRITE_ALL;
use quad_renderer::pipeline::SAMPLE_MASK_ALL;
use quad_renderer::shape::ShapeKind;
use quad_renderer::surface::TextureFormat;

const REPLACE: BlendState = BlendState {
    src_factor: BlendFactor::One,
    dst_factor: BlendFactor::Zero,
    operation: BlendOperation::Add,
};

#[test]
fn factory_shares_vertex_stage_and_uniform_layout() {
    let f = RenderPipelineFactory::new();
    assert_eq!(f.vs_module, ShaderModule::Vertex);
    let e = f.uniform_bind_group_layout.entry;
    assert_eq!(e.binding, 0);
    assert_eq!(e.visibility, ShaderStage::Vertex);
    assert_eq!(e.ty, BufferBindingType::Uniform);
    assert!(!e.has_dynamic_offset);
    assert_eq!(e.min_binding_size, None);
    assert_eq!(e.count, None);
    assert_eq!(f.render_pipeline_layout.bind_group_layout, f.uniform_bind_group_layout);
    assert_eq!(f.render_pipeline_layout.push_constant_ranges, 0);
}

#[test]
fn pipeline_has_the_fixed_function_state() {
    let f = RenderPipelineFactory::new();
    let p = f.create(ShaderModule::RectFragment, TextureFormat::Bgra8UnormSrgb);
    assert_eq!(p.primitive.topology, PrimitiveTopology::TriangleList);
    assert_eq!(p.primitive.strip_index_format, None);
    assert_eq!(p.primitive.front_face, FrontFace::Ccw);
    assert_eq!(p.primitive.cull_mode, CullMode::Back);
    assert_eq!(p.primitive.polygon_mode, PolygonMode::Fill);
    assert!(!p.depth_stencil);
    assert_eq!(p.multisample.count, 1);
    assert_eq!(p.multisample.mask, !0u64);
    assert_eq!(p.multisample.mask, SAMPLE_MASK_ALL);
    assert!(!p.multisample.alpha_to_coverage_enabled);
}

#[test]
fn pipeline_reads_the_quad_and_replaces_all_channels() {
    let f = RenderPipelineFactory::new();
    let p = f.create(ShaderModule::EllipseFragment, TextureFormat::Rgba8Unorm);
    assert_eq!(p.layout, f.render_pipeline_layout);
    assert_eq!(p.vertex.module, ShaderModule::Vertex);
    assert_eq!(p.vertex.buffer, Vertex::desc());
    assert_eq!(p.fragment.module, ShaderModule::EllipseFragment);
    assert_eq!(p.fragment.target.format, TextureFormat::Rgba8Unorm);
    assert_eq!(p.fragment.target.alpha_blend, REPLACE);
    assert_eq!(p.fragment.target.color_blend, REPLACE);
    assert_eq!(p.fragment.target.write_mask, COLOR_WRITE_ALL);
    assert_eq!(p.fragment.target.write_mask, 0b1111);
}

#[test]
fn pipelines_differ_in_the_fragment_program_only() {
    let f = RenderPipelineFactory::new();
    for format in [
        TextureFormat::Rgba8Unorm,
        TextureFormat::Rgba8UnormSrgb,
        TextureFormat::Bgra8Unorm,
        TextureFormat::Bgra8UnormSrgb,
    ] {
        let rect = f.create(ShapeKind::Rectangle.fragment_module(), format);
        let ellipse = f.create(ShapeKind::Ellipse.fragment_module(), format);
        assert_ne!(rect, ellipse);
        let mut patched = ellipse;
        patched.fragment.module = rect.fragment.module;
        assert_eq!(patched, rect);
    }
}

#[test]
fn each_kind_has_its_own_fragment_program() {
    assert_eq!(ShapeKind::Rectangle.fragment_module(), ShaderModule::RectFragment);
    assert_eq!(ShapeKind::Ellipse.fragment_module(), ShaderModule::EllipseFragment);
}

#[test]
fn each_program_has_its_file() {
    assert_eq!(ShaderModule::Vertex.file(), "shaders/shader.vert.spv");
    assert_eq!(ShaderModule::RectFragment.file(), "shaders/rect.frag.spv");
    assert_eq!(ShaderModule::EllipseFragment.file(), "shaders/ellipse.frag.spv");
}

#[test]
fn stages_are_entered_at_main() {
    assert_eq!(entry_point(), "main");
}
