//! The renderer's state machine. Per tick it goes from idle to acquired and
//! back; draws are taken only while a frame is acquired.
//!
//! The state holds no GPU object. Its methods take what the graphics layer
//! reported and return what is to be done with it: which passes to submit, in
//! which order, and when the presentation target has to be rebuilt.

use vstd::prelude::*;
use crate::frame::frame;
use crate::frame::last_model;
use crate::frame::scene;
use crate::frame::Color;
use crate::frame::LoadOp;
use crate::frame::Submission;
use crate::geometry::IndexFormat;
use crate::geometry::INDEX_COUNT;
use crate::pipeline::RenderPipelineDescriptor;
use crate::pipeline::RenderPipelineFactory;
use crate::pipeline::ShaderModule;
use crate::shape::Placement;
use crate::shape::Scalar;
use crate::shape::ShapeKind;
use crate::shape::ShapeRequest;
use crate::surface::AcquireError;
use crate::surface::AcquiredFrame;
use crate::surface::PhysicalSize;
use crate::surface::SurfaceSession;
use crate::surface::SwapChainDescriptor;
use crate::surface::SwapChainError;
use crate::surface::TextureFormat;
use crate::surface::Transient;
use crate::uniforms::AspectRatio;
use crate::uniforms::ModelTransform;
use crate::uniforms::Uniforms;

verus! {

/// A call that the state machine does not take in the state it is in.
#[derive(Clone, Copy, Debug, PartialEq, Eq, Structural)]
pub enum StateError {
    /// A draw or the end of a frame was asked for while no frame is acquired.
    NotAcquired,
    /// The beginning of a frame was asked for while one is acquired.
    AlreadyAcquired,
}

/// How the beginning of a frame went, and what follows from it.
#[derive(Clone, Copy, Debug, PartialEq, Eq, Structural)]
pub enum Begin {
    /// A frame is acquired: draw, then end the frame.
    Acquired(AcquiredFrame),
    /// The target was lost: rebuild it from this description, which has the
    /// last known size, and draw nothing in this tick.
    Reconfigure(SwapChainDescriptor),
    /// Nothing was acquired, for a reason that passes by itself: draw nothing
    /// in this tick. The reason is worth a line in the log.
    Skip(Transient),
    /// Memory is exhausted: terminate.
    Fatal,
}

/// Keys that the renderer tells apart.
#[derive(Clone, Copy, Debug, PartialEq, Eq, Structural)]
pub enum Key {
    Escape,
    Other,
}

/// Whether a key went down or up.
#[derive(Clone, Copy, Debug, PartialEq, Eq, Structural)]
pub enum ElementState {
    Pressed,
    Released,
}

/// What the window system delivers.
#[derive(Clone, Copy, Debug)]
pub enum Event {
    /// The window is asked to close.
    CloseRequested,
    /// A key changed state; `key` is `None` where the key has no name.
    KeyboardInput { state: ElementState, key: Option<Key> },
    /// The window has a new size.
    Resized(PhysicalSize),
    /// The window moved to a display of another scale and has a new size.
    ScaleFactorChanged { new_inner_size: PhysicalSize },
    /// The window is to be drawn anew. `acquired` is what asking for the next
    /// image of the target gave, and `ellipse_x` the horizontal position that
    /// was drawn at random for the ellipse of this frame.
    RedrawRequested { acquired: Result<(), SwapChainError>, ellipse_x: Scalar },
    /// All pending events have been delivered.
    MainEventsCleared,
    /// Anything else, and every event of another window.
    Other,
}

/// What is to be done after an event.
#[derive(Debug)]
pub enum Action {
    /// Nothing: wait for the next event.
    Wait,
    /// Nothing but a line in the log: no image could be had for this tick, for
    /// the reason given, which passes by itself.
    Skip(Transient),
    /// Leave the event loop and end the process with this code.
    Exit { code: i32 },
    /// Ask the window system for a redraw.
    RequestRedraw,
    /// Rebuild the presentation target from this description.
    Reconfigure(SwapChainDescriptor),
    /// Submit these to the queue, one by one and in this order, against the
    /// image that was acquired; then give the image back.
    Present(Vec<Submission>),
}

/// Exit code after the window was closed or escape was pressed.
pub const EXIT_SUCCESS: i32 = 0;

/// Exit code after the graphics layer ran out of memory.
pub const EXIT_OUT_OF_MEMORY: i32 = 1;

/// The format of the presentation target.
pub open spec fn target_format() -> TextureFormat {
    TextureFormat::Bgra8UnormSrgb
}

/// What a [`State`] holds.
pub struct StateView {
    /// The presentation target and the frame in flight.
    pub surface: SurfaceSession,
    /// The last size that the window is known to have.
    pub size: PhysicalSize,
    /// The pipeline that draws rectangles.
    pub rect_render_pipeline: RenderPipelineDescriptor,
    /// The pipeline that draws ellipses.
    pub ellipse_render_pipeline: RenderPipelineDescriptor,
    /// The uniform block as it was last set.
    pub uniforms: Uniforms,
}

impl StateView {
    /// A frame is acquired.
    pub open spec fn acquired(self) -> bool {
        self.surface.current_target is Some
    }

    /// No frame is acquired.
    pub open spec fn idle(self) -> bool {
        self.surface.current_target is None
    }

    /// The size that the target is configured at.
    pub open spec fn configured(self) -> PhysicalSize {
        self.surface.desc.size()
    }

    /// What holds of every state:
    /// a frame in flight comes from the target as it is configured; the aspect
    /// ratio is that of the configured target; while idle, the target is
    /// configured at the last known size of the window; and the two pipelines
    /// are those of the shared factory for the target's format.
    pub open spec fn wf(self) -> bool {
        &&& self.surface.wf()
        &&& self.uniforms.aspect_ratio == (AspectRatio {
            width: self.surface.desc.width,
            height: self.surface.desc.height,
        })
        &&& self.idle() ==> self.size == self.configured()
        &&& self.rect_render_pipeline == RenderPipelineFactory::shared().pipeline(
            ShapeKind::Rectangle.fragment(),
            self.surface.desc.format,
        )
        &&& self.ellipse_render_pipeline == RenderPipelineFactory::shared().pipeline(
            ShapeKind::Ellipse.fragment(),
            self.surface.desc.format,
        )
    }

    /// The pipeline that shapes of `kind` are drawn with.
    pub open spec fn pipeline(self, kind: ShapeKind) -> RenderPipelineDescriptor {
        match kind {
            ShapeKind::Rectangle => self.rect_render_pipeline,
            ShapeKind::Ellipse => self.ellipse_render_pipeline,
        }
    }

    /// The state before the first tick, for a window of the given size.
    pub open spec fn initial(size: PhysicalSize) -> StateView {
        StateView {
            surface: SurfaceSession {
                desc: SwapChainDescriptor {
                    usage: crate::surface::TextureUsage::RenderAttachment,
                    format: target_format(),
                    width: size.width,
                    height: size.height,
                    present_mode: crate::surface::PresentMode::Fifo,
                },
                current_target: None,
            },
            size,
            rect_render_pipeline: RenderPipelineFactory::shared().pipeline(
                ShaderModule::RectFragment,
                target_format(),
            ),
            ellipse_render_pipeline: RenderPipelineFactory::shared().pipeline(
                ShaderModule::EllipseFragment,
                target_format(),
            ),
            uniforms: Uniforms {
                model: ModelTransform::Identity,
                aspect_ratio: AspectRatio { width: size.width, height: size.height },
            },
        }
    }

    /// The state with the target rebuilt at the last known size of the window,
    /// no frame in flight, and the aspect ratio of that size.
    pub open spec fn reconfigured(self) -> StateView {
        StateView {
            surface: SurfaceSession {
                desc: SwapChainDescriptor {
                    width: self.size.width,
                    height: self.size.height,
                    ..self.surface.desc
                },
                current_target: None,
            },
            uniforms: Uniforms {
                aspect_ratio: AspectRatio { width: self.size.width, height: self.size.height },
                ..self.uniforms
            },
            ..self
        }
    }

    /// The state with another last known size of the window.
    pub open spec fn with_size(self, size: PhysicalSize) -> StateView {
        StateView { size, ..self }
    }

    /// The state with a frame in flight, taken from the target as it is configured.
    pub open spec fn with_frame(self) -> StateView {
        StateView {
            surface: SurfaceSession {
                current_target: Some(self.surface.next_frame()),
                ..self.surface
            },
            ..self
        }
    }

    /// The state with another model transform.
    pub open spec fn with_model(self, model: ModelTransform) -> StateView {
        StateView { uniforms: Uniforms { model, ..self.uniforms }, ..self }
    }

    /// The state after a resize to `size`. While idle the target is rebuilt at
    /// once. While a frame is acquired only the size is noted; the target is
    /// rebuilt when the frame ends.
    pub open spec fn resized(self, size: PhysicalSize) -> StateView {
        if self.idle() {
            self.with_size(size).reconfigured()
        } else {
            self.with_size(size)
        }
    }

    /// What the beginning of a frame gives, from an idle state, for what the
    /// graphics layer reported.
    pub open spec fn begin(self, acquired: Result<(), SwapChainError>) -> Begin {
        match acquired {
            Ok(_) => Begin::Acquired(self.surface.next_frame()),
            Err(e) => match e.class() {
                AcquireError::Lost => Begin::Reconfigure(self.reconfigured().surface.desc),
                AcquireError::OutOfMemory => Begin::Fatal,
                AcquireError::Transient(reason) => Begin::Skip(reason),
            },
        }
    }

    /// The state after the beginning of a frame, from an idle state.
    pub open spec fn begun(self, acquired: Result<(), SwapChainError>) -> StateView {
        match acquired {
            Ok(_) => self.with_frame(),
            Err(e) => match e.class() {
                AcquireError::Lost => self.reconfigured(),
                _ => self,
            },
        }
    }
}

/// Every step of the state machine keeps a well-formed state well-formed.
pub proof fn lemma_steps_keep_wf(
    s: StateView,
    size: PhysicalSize,
    acquired: Result<(), SwapChainError>,
    model: ModelTransform,
)
    requires
        s.wf(),
    ensures
        StateView::initial(size).wf(),
        StateView::initial(size).idle(),
        s.resized(size).wf(),
        s.reconfigured().wf(),
        s.reconfigured().idle(),
        s.with_model(model).wf(),
        s.idle() ==> s.begun(acquired).wf(),
        s.idle() ==> s.reconfigured() == s,
{
}

/// A resize leaves the pipelines as they are: none depends on the size of the
/// target, so none is ever rebuilt.
pub proof fn lemma_resize_keeps_pipelines(s: StateView, size: PhysicalSize, kind: ShapeKind)
    ensures
        s.resized(size).pipeline(kind) == s.pipeline(kind),
        s.resized(size).reconfigured().pipeline(kind) == s.pipeline(kind),
        s.resized(size).surface.desc.format == s.surface.desc.format,
{
}

/// A resize to `width` by `height` makes the stored aspect ratio `width /
/// height`, term for term, as soon as the resize takes effect: at once while
/// idle, and otherwise when the frame ends, before any pass of a later frame.
/// Until it takes effect the ratio is that of the target that is still in use.
pub proof fn lemma_resize_sets_aspect_ratio(s: StateView, width: u32, height: u32)
    requires
        s.wf(),
    ensures
        ({
            let size = PhysicalSize { width, height };
            let ratio = AspectRatio { width, height };
            &&& s.idle() ==> s.resized(size).uniforms.aspect_ratio == ratio && s.resized(
                size,
            ).configured() == size
            &&& s.acquired() ==> s.resized(size).uniforms.aspect_ratio == s.uniforms.aspect_ratio
                && s.resized(size).surface == s.surface
            &&& s.acquired() ==> s.resized(size).reconfigured().uniforms.aspect_ratio == ratio
                && s.resized(size).reconfigured().configured() == size
        }),
{
}

/// The renderer: the presentation target, the uniform block, and the two pipelines.
#[derive(Debug)]
pub struct State {
    surface: SurfaceSession,
    size: PhysicalSize,
    rect_render_pipeline: RenderPipelineDescriptor,
    ellipse_render_pipeline: RenderPipelineDescriptor,
    uniforms: Uniforms,
}

impl View for State {
    type V = StateView;

    closed spec fn view(&self) -> StateView {
        StateView {
            surface: self.surface,
            size: self.size,
            rect_render_pipeline: self.rect_render_pipeline,
            ellipse_render_pipeline: self.ellipse_render_pipeline,
            uniforms: self.uniforms,
        }
    }
}

impl State {
    #[verifier::type_invariant]
    spec fn inv(self) -> bool {
        self@.wf()
    }

    /// The renderer for a window of the given size: idle, the target
    /// configured at that size, no shape placed yet.
    pub fn new(size: PhysicalSize) -> (s: State)
        ensures
            s@ == StateView::initial(size),
            s@.wf(),
            s@.idle(),
    {
        let surface = SurfaceSession::new(TextureFormat::Bgra8UnormSrgb, size.width, size.height);
        let factory = RenderPipelineFactory::new();
        let rect_render_pipeline = factory.create(
            ShapeKind::Rectangle.fragment_module(),
            surface.desc.format,
        );
        let ellipse_render_pipeline = factory.create(
            ShapeKind::Ellipse.fragment_module(),
            surface.desc.format,
        );
        let uniforms = Uniforms::new(AspectRatio { width: size.width, height: size.height });
        State { surface, size, rect_render_pipeline, ellipse_render_pipeline, uniforms }
    }

    /// Whether a frame is acquired.
    pub fn is_acquired(&self) -> (b: bool)
        ensures
            b == self@.acquired(),
            self@.wf(),
    {
        proof {
            use_type_invariant(self);
        }
        self.surface.current_target.is_some()
    }

    /// The last known size of the window.
    pub fn size(&self) -> (s: PhysicalSize)
        ensures
            s == self@.size,
    {
        self.size
    }

    /// The description that the presentation target was last built from.
    pub fn sc_desc(&self) -> (d: SwapChainDescriptor)
        ensures
            d == self@.surface.desc,
    {
        self.surface.desc
    }

    /// The pipeline that shapes of `kind` are drawn with.
    pub fn pipeline(&self, kind: ShapeKind) -> (p: RenderPipelineDescriptor)
        ensures
            p == self@.pipeline(kind),
            p == RenderPipelineFactory::shared().pipeline(kind.fragment(), self@.surface.desc.format),
    {
        proof {
            use_type_invariant(self);
        }
        match kind {
            ShapeKind::Rectangle => self.rect_render_pipeline,
            ShapeKind::Ellipse => self.ellipse_render_pipeline,
        }
    }

    /// The uniform block as it stands, to be written to uniform memory.
    pub fn update(&self) -> (u: Uniforms)
        ensures
            u == self@.uniforms,
            u.aspect_ratio == (AspectRatio {
                width: self@.surface.desc.width,
                height: self@.surface.desc.height,
            }),
    {
        proof {
            use_type_invariant(self);
        }
        self.uniforms
    }

    /// Takes note of a new size of the window.
    ///
    /// While idle, the target is rebuilt at once: the description to rebuild
    /// it from is returned, and the aspect ratio is that of the new size from
    /// now on. While a frame is acquired, rebuilding would invalidate it: the
    /// size is only noted and `None` is returned; the end of the frame rebuilds.
    pub fn resize(&mut self, new_size: PhysicalSize) -> (rebuild: Option<SwapChainDescriptor>)
        ensures
            final(self)@ == old(self)@.resized(new_size),
            final(self)@.wf(),
            final(self)@.size == new_size,
            final(self)@.acquired() == old(self)@.acquired(),
            old(self)@.idle() ==> rebuild == Some(final(self)@.surface.desc)
                && final(self)@.configured() == new_size && final(self)@.uniforms.aspect_ratio == (
            AspectRatio { width: new_size.width, height: new_size.height }),
            old(self)@.acquired() ==> rebuild is None,
    {
        proof {
            use_type_invariant(&*self);
        }
        if self.surface.current_target.is_some() {
            self.size = new_size;
            None
        } else {
            let mut surface = self.surface;
            let desc = surface.configure(new_size.width, new_size.height);
            let mut uniforms = self.uniforms;
            uniforms.set_aspect_ratio(new_size.width, new_size.height);
            *self = State {
                surface,
                size: new_size,
                rect_render_pipeline: self.rect_render_pipeline,
                ellipse_render_pipeline: self.ellipse_render_pipeline,
                uniforms,
            };
            Some(desc)
        }
    }

    /// Offers an event to the renderer before the event loop acts on it, and
    /// says whether the renderer has consumed it. It consumes none.
    pub fn input(&mut self, event: &Event) -> (consumed: bool)
        ensures
            !consumed,
            final(self)@ == old(self)@,
    {
        false
    }

    /// Begins a frame with what asking for the next image of the target gave.
    ///
    /// Rejected while a frame is acquired. Otherwise: on success the frame is
    /// acquired; where the target was lost it is rebuilt at the last known
    /// size and the state stays idle; on any other report the state stays as
    /// it is.
    pub fn begin_rendering(&mut self, acquired: Result<(), SwapChainError>) -> (r: Result<
        Begin,
        StateError,
    >)
        ensures
            final(self)@.wf(),
            old(self)@.acquired() ==> r == Err::<Begin, StateError>(StateError::AlreadyAcquired)
                && final(self)@ == old(self)@,
            old(self)@.idle() ==> r == Ok::<Begin, StateError>(old(self)@.begin(acquired))
                && final(self)@ == old(self)@.begun(acquired),
            old(self)@.idle() ==> (final(self)@.acquired() <==> acquired is Ok),
            old(self)@.idle() && acquired is Err ==> final(self)@ == old(self)@,
            r matches Ok(Begin::Reconfigure(desc)) ==> desc.size() == old(self)@.size,
    {
        proof {
            use_type_invariant(&*self);
        }
        if self.surface.current_target.is_some() {
            return Err(StateError::AlreadyAcquired);
        }
        let mut surface = self.surface;
        match surface.acquire(acquired) {
            Ok(frame) => {
                self.surface = surface;
                Ok(Begin::Acquired(frame))
            },
            Err(AcquireError::Lost) => Ok(Begin::Reconfigure(self.surface.desc)),
            Err(AcquireError::OutOfMemory) => Ok(Begin::Fatal),
            Err(AcquireError::Transient(reason)) => Ok(Begin::Skip(reason)),
        }
    }

    /// Ends the frame: the acquired image is given back.
    ///
    /// Rejected while idle. Where the window was resized during the frame, the
    /// target is rebuilt now, at the last known size: the description to
    /// rebuild it from is returned.
    pub fn end_rendering(&mut self) -> (r: Result<Option<SwapChainDescriptor>, StateError>)
        ensures
            final(self)@.wf(),
            final(self)@.idle(),
            old(self)@.idle() ==> r == Err::<Option<SwapChainDescriptor>, StateError>(
                StateError::NotAcquired,
            ) && final(self)@ == old(self)@,
            old(self)@.acquired() ==> final(self)@ == old(self)@.reconfigured() && r == Ok::<
                Option<SwapChainDescriptor>,
                StateError,
            >(
                if old(self)@.size == old(self)@.configured() {
                    None
                } else {
                    Some(final(self)@.surface.desc)
                },
            ),
    {
        proof {
            use_type_invariant(&*self);
        }
        match self.surface.current_target {
            None => Err(StateError::NotAcquired),
            Some(frame) => {
                let mut surface = self.surface;
                surface.release(frame);
                if self.size.width == surface.desc.width && self.size.height == surface.desc.height {
                    self.surface = surface;
                    Ok(None)
                } else {
                    let desc = surface.configure(self.size.width, self.size.height);
                    let mut uniforms = self.uniforms;
                    uniforms.set_aspect_ratio(self.size.width, self.size.height);
                    *self = State {
                        surface,
                        size: self.size,
                        rect_render_pipeline: self.rect_render_pipeline,
                        ellipse_render_pipeline: self.ellipse_render_pipeline,
                        uniforms,
                    };
                    Ok(Some(desc))
                }
            },
        }
    }

    /// The background pass of the frame: clears the target to `clear_color`
    /// and rasterizes nothing. Rejected while idle.
    pub fn background(&self, clear_color: Color) -> (r: Result<Submission, StateError>)
        ensures
            self@.idle() ==> r == Err::<Submission, StateError>(StateError::NotAcquired),
            self@.acquired() ==> r == Ok::<Submission, StateError>(
                Submission::background(self@.uniforms, clear_color),
            ),
            r matches Ok(pass) ==> pass.load == LoadOp::Clear(clear_color) && pass.index_len() == 0,
    {
        if self.surface.current_target.is_none() {
            return Err(StateError::NotAcquired);
        }
        let (first_index, end_index) = crate::geometry::background_index_range();
        Ok(
            Submission {
                uniforms: self.uniforms,
                load: LoadOp::Clear(clear_color),
                store: true,
                pipeline: ShapeKind::Rectangle,
                index_format: IndexFormat::Uint16,
                first_index,
                end_index,
                base_vertex: 0,
                first_instance: 0,
                end_instance: 1,
            },
        )
    }

    /// The pass that draws the unit quad under the uniform block as it stands,
    /// with the pipeline of `kind`, over what the target holds. Rejected while idle.
    pub fn rect_with_shader(&self, kind: ShapeKind) -> (r: Result<Submission, StateError>)
        ensures
            self@.idle() ==> r == Err::<Submission, StateError>(StateError::NotAcquired),
            self@.acquired() ==> r == Ok::<Submission, StateError>(
                Submission::shape(self@.uniforms, kind),
            ),
            r matches Ok(pass) ==> pass.load == LoadOp::Load && pass.index_len() == INDEX_COUNT,
    {
        if self.surface.current_target.is_none() {
            return Err(StateError::NotAcquired);
        }
        let (first_index, end_index) = crate::geometry::shape_index_range();
        Ok(
            Submission {
                uniforms: self.uniforms,
                load: LoadOp::Load,
                store: true,
                pipeline: kind,
                index_format: IndexFormat::Uint16,
                first_index,
                end_index,
                base_vertex: 0,
                first_instance: 0,
                end_instance: 1,
            },
        )
    }

    /// Draws one shape: sets the model transform to that of the request and
    /// returns the pass that draws the shape over what the target holds.
    /// Rejected while idle, and then nothing changes.
    pub fn draw_shape(&mut self, request: ShapeRequest) -> (r: Result<Submission, StateError>)
        ensures
            final(self)@.wf(),
            old(self)@.idle() ==> r == Err::<Submission, StateError>(StateError::NotAcquired)
                && final(self)@ == old(self)@,
            old(self)@.acquired() ==> r == Ok::<Submission, StateError>(
                Submission::of_request(old(self)@.uniforms, request),
            ) && final(self)@ == old(self)@.with_model(ModelTransform::Placed(request.placement)),
    {
        proof {
            use_type_invariant(&*self);
        }
        if self.surface.current_target.is_none() {
            return Err(StateError::NotAcquired);
        }
        let p = request.placement;
        let mut uniforms = self.uniforms;
        uniforms.update_model_matrix(p.x, p.y, p.w, p.h, p.rotation);
        self.uniforms = uniforms;
        self.rect_with_shader(request.kind)
    }

    /// Draws a rectangle at `(x, y)` with half extents `(w, h)`, turned by
    /// `rotation`. See [`State::draw_shape`].
    pub fn rect(&mut self, x: Scalar, y: Scalar, w: Scalar, h: Scalar, rotation: Scalar) -> (r:
        Result<Submission, StateError>)
        ensures
            final(self)@.wf(),
            old(self)@.idle() ==> r == Err::<Submission, StateError>(StateError::NotAcquired)
                && final(self)@ == old(self)@,
            old(self)@.acquired() ==> r == Ok::<Submission, StateError>(
                Submission::of_request(
                    old(self)@.uniforms,
                    ShapeRequest {
                        kind: ShapeKind::Rectangle,
                        placement: Placement { x, y, w, h, rotation },
                    },
                ),
            ) && final(self)@ == old(self)@.with_model(
                ModelTransform::Placed(Placement { x, y, w, h, rotation }),
            ),
    {
        self.draw_shape(ShapeRequest::rectangle(Placement { x, y, w, h, rotation }))
    }

    /// Draws the ellipse inscribed in the rectangle at `(x, y)` with half
    /// extents `(w, h)`, turned by `rotation`. See [`State::draw_shape`].
    pub fn ellipse(&mut self, x: Scalar, y: Scalar, w: Scalar, h: Scalar, rotation: Scalar) -> (r:
        Result<Submission, StateError>)
        ensures
            final(self)@.wf(),
            old(self)@.idle() ==> r == Err::<Submission, StateError>(StateError::NotAcquired)
                && final(self)@ == old(self)@,
            old(self)@.acquired() ==> r == Ok::<Submission, StateError>(
                Submission::of_request(
                    old(self)@.uniforms,
                    ShapeRequest {
                        kind: ShapeKind::Ellipse,
                        placement: Placement { x, y, w, h, rotation },
                    },
                ),
            ) && final(self)@ == old(self)@.with_model(
                ModelTransform::Placed(Placement { x, y, w, h, rotation }),
            ),
    {
        self.draw_shape(ShapeRequest::ellipse(Placement { x, y, w, h, rotation }))
    }

    /// The passes of a whole frame, in the order in which they are to be
    /// submitted: the background pass, then the shapes in the order given, so
    /// that a later shape lies over an earlier one. Rejected while idle, and
    /// then nothing changes.
    pub fn draw_scene(&mut self, clear_color: Color, shapes: &Vec<ShapeRequest>) -> (r: Result<
        Vec<Submission>,
        StateError,
    >)
        ensures
            final(self)@.wf(),
            old(self)@.idle() <==> r is Err,
            old(self)@.idle() ==> r == Err::<Vec<Submission>, StateError>(StateError::NotAcquired)
                && final(self)@ == old(self)@,
            old(self)@.acquired() ==> (r matches Ok(passes) && passes@ == frame(
                old(self)@.uniforms,
                clear_color,
                shapes@,
            ) && passes@.len() == shapes@.len() + 1),
            old(self)@.acquired() ==> final(self)@ == old(self)@.with_model(
                last_model(old(self)@.uniforms.model, shapes@),
            ),
    {
        proof {
            use_type_invariant(&*self);
        }
        let first = match self.background(clear_color) {
            Ok(pass) => pass,
            Err(e) => {
                return Err(e);
            },
        };
        let ghost before = self@;
        let mut passes: Vec<Submission> = Vec::new();
        passes.push(first);
        assert(passes@ =~= frame(before.uniforms, clear_color, shapes@.take(0)));
        let mut i: usize = 0;
        while i < shapes.len()
            invariant
                0 <= i <= shapes@.len(),
                before.acquired(),
                before.wf(),
                self@ == before.with_model(last_model(before.uniforms.model, shapes@.take(i as int))),
                passes@ == frame(before.uniforms, clear_color, shapes@.take(i as int)),
            decreases shapes@.len() - i,
        {
            let request = shapes[i];
            let pass = match self.draw_shape(request) {
                Ok(pass) => pass,
                Err(e) => {
                    return Err(e);
                },
            };
            passes.push(pass);
            proof {
                crate::frame::lemma_frame_push(
                    before.uniforms,
                    clear_color,
                    shapes@.take(i as int),
                    request,
                );
                assert(shapes@.take(i as int).push(request) =~= shapes@.take(i + 1));
            }
            i = i + 1;
        }
        assert(shapes@.take(i as int) =~= shapes@);
        Ok(passes)
    }

    /// The passes of a frame of the scene: the backdrop, the rectangle, and
    /// over it the ellipse at the horizontal position `ellipse_x`. Rejected
    /// while idle, and then nothing changes.
    pub fn render(&mut self, ellipse_x: Scalar) -> (r: Result<Vec<Submission>, StateError>)
        ensures
            final(self)@.wf(),
            old(self)@.idle() <==> r is Err,
            old(self)@.idle() ==> r == Err::<Vec<Submission>, StateError>(StateError::NotAcquired)
                && final(self)@ == old(self)@,
            old(self)@.acquired() ==> (r matches Ok(passes) && passes@ == frame(
                old(self)@.uniforms,
                Color::backdrop(),
                scene(ellipse_x),
            ) && passes@.len() == 3),
            old(self)@.acquired() ==> final(self)@ == old(self)@.with_model(
                ModelTransform::Placed(scene(ellipse_x)[1].placement),
            ),
    {
        let mut shapes: Vec<ShapeRequest> = Vec::new();
        shapes.push(
            ShapeRequest::rectangle(
                Placement {
                    x: Scalar::from_bits(crate::shape::HALF),
                    y: Scalar::from_bits(crate::shape::ZERO),
                    w: Scalar::from_bits(crate::shape::THREE_QUARTERS),
                    h: Scalar::from_bits(crate::shape::THREE_QUARTERS),
                    rotation: Scalar::from_bits(crate::shape::HALF_TURN),
                },
            ),
        );
        shapes.push(
            ShapeRequest::ellipse(
                Placement {
                    x: ellipse_x,
                    y: Scalar::from_bits(crate::shape::ZERO),
                    w: Scalar::from_bits(crate::shape::QUARTER),
                    h: Scalar::from_bits(crate::shape::QUARTER),
                    rotation: Scalar::from_bits(crate::shape::QUARTER_TURN),
                },
            ),
        );
        assert(shapes@ =~= scene(ellipse_x));
        self.draw_scene(Color::background(), &shapes)
    }

    /// One tick: begins a frame with what asking for the next image gave,
    /// draws the scene, and ends the frame.
    ///
    /// Rejected while a frame is acquired. Otherwise the state is idle again
    /// afterwards, and the action says what the tick comes to: the passes to
    /// submit and present; or, where the target was lost, the description to
    /// rebuild it from; or the exit, where memory is exhausted; or nothing.
    pub fn redraw(&mut self, acquired: Result<(), SwapChainError>, ellipse_x: Scalar) -> (r: Result<
        Action,
        StateError,
    >)
        ensures
            final(self)@.wf(),
            old(self)@.acquired() <==> r is Err,
            old(self)@.acquired() ==> r == Err::<Action, StateError>(StateError::AlreadyAcquired)
                && final(self)@ == old(self)@,
            old(self)@.idle() ==> final(self)@.idle(),
            old(self)@.idle() && acquired is Ok ==> (r matches Ok(Action::Present(passes))
                && passes@ == frame(old(self)@.uniforms, Color::backdrop(), scene(ellipse_x))),
            old(self)@.idle() && acquired is Ok ==> final(self)@ == old(self)@.with_model(
                ModelTransform::Placed(scene(ellipse_x)[1].placement),
            ),
            old(self)@.idle() && acquired is Err ==> final(self)@ == old(self)@,
            old(self)@.idle() ==> match acquired {
                Ok(_) => r matches Ok(Action::Present(_)),
                Err(e) => match e.class() {
                    AcquireError::Lost => r matches Ok(Action::Reconfigure(desc)) && desc == old(self)@.surface.desc && desc.size() == old(self)@.size,
                    AcquireError::OutOfMemory => r matches Ok(Action::Exit { code }) && code
                        == EXIT_OUT_OF_MEMORY,
                    AcquireError::Transient(reason) => r matches Ok(Action::Skip(skipped))
                        && skipped == reason,
                },
            },
    {
        proof {
            use_type_invariant(&*self);
        }
        let begin = match self.begin_rendering(acquired) {
            Ok(begin) => begin,
            Err(e) => {
                return Err(e);
            },
        };
        match begin {
            Begin::Acquired(_) => {
                let passes = match self.render(ellipse_x) {
                    Ok(passes) => passes,
                    Err(e) => {
                        return Err(e);
                    },
                };
                match self.end_rendering() {
                    Ok(_) => Ok(Action::Present(passes)),
                    Err(e) => Err(e),
                }
            },
            Begin::Reconfigure(desc) => Ok(Action::Reconfigure(desc)),
            Begin::Fatal => Ok(Action::Exit { code: EXIT_OUT_OF_MEMORY }),
            Begin::Skip(reason) => Ok(Action::Skip(reason)),
        }
    }

    /// One step of the event loop: takes an event and says what is to be done.
    ///
    /// A request to close and a press of escape end the loop. A new size
    /// rebuilds the target, at once while idle and at the end of the frame
    /// otherwise. A request to redraw runs one tick, see [`State::redraw`],
    /// and is rejected while a frame is acquired. Once all events are
    /// delivered a redraw is asked for. Every other event is passed over.
    pub fn run(&mut self, event: Event) -> (r: Result<Action, StateError>)
        ensures
            final(self)@.wf(),
            final(self)@.acquired() == old(self)@.acquired(),
            r is Err <==> old(self)@.acquired() && event is RedrawRequested,
            r matches Err(e) ==> e == StateError::AlreadyAcquired && final(self)@ == old(self)@,
            match event {
                Event::CloseRequested => r matches Ok(Action::Exit { code }) && code == EXIT_SUCCESS
                    && final(self)@ == old(self)@,
                Event::KeyboardInput { state, key } => final(self)@ == old(self)@ && if state
                    == ElementState::Pressed && key == Some(Key::Escape) {
                    r matches Ok(Action::Exit { code }) && code == EXIT_SUCCESS
                } else {
                    r matches Ok(Action::Wait)
                },
                Event::Resized(size) | Event::ScaleFactorChanged { new_inner_size: size } => final(self)@ == old(self)@.resized(size) && if old(self)@.idle() {
                    r matches Ok(Action::Reconfigure(desc)) && desc == final(self)@.surface.desc
                        && desc.size() == size
                } else {
                    r matches Ok(Action::Wait)
                },
                Event::RedrawRequested { acquired, ellipse_x } => old(self)@.idle() ==> final(self)@.idle() && match acquired {
                    Ok(_) => r matches Ok(Action::Present(passes)) && passes@ == frame(
                        old(self)@.uniforms,
                        Color::backdrop(),
                        scene(ellipse_x),
                    ) && final(self)@ == old(self)@.with_model(
                        ModelTransform::Placed(scene(ellipse_x)[1].placement),
                    ),
                    Err(e) => final(self)@ == old(self)@ && match e.class() {
                        AcquireError::Lost => r matches Ok(Action::Reconfigure(desc)) && desc
                            == old(self)@.surface.desc && desc.size() == old(self)@.size,
                        AcquireError::OutOfMemory => r matches Ok(Action::Exit { code }) && code
                            == EXIT_OUT_OF_MEMORY,
                        AcquireError::Transient(reason) => r matches Ok(Action::Skip(skipped))
                            && skipped == reason,
                    },
                },
                Event::MainEventsCleared => r matches Ok(Action::RequestRedraw) && final(self)@
                    == old(self)@,
                Event::Other => r matches Ok(Action::Wait) && final(self)@ == old(self)@,
            },
    {
        proof {
            use_type_invariant(&*self);
        }
        if self.input(&event) {
            return Ok(Action::Wait);
        }
        match event {
            Event::CloseRequested => Ok(Action::Exit { code: EXIT_SUCCESS }),
            Event::KeyboardInput { state, key } => {
                match (state, key) {
                    (ElementState::Pressed, Some(Key::Escape)) => Ok(
                        Action::Exit { code: EXIT_SUCCESS },
                    ),
                    _ => Ok(Action::Wait),
                }
            },
            Event::Resized(size) => {
                match self.resize(size) {
                    Some(desc) => Ok(Action::Reconfigure(desc)),
                    None => Ok(Action::Wait),
                }
            },
            Event::ScaleFactorChanged { new_inner_size } => {
                match self.resize(new_inner_size) {
                    Some(desc) => Ok(Action::Reconfigure(desc)),
                    None => Ok(Action::Wait),
                }
            },
            Event::RedrawRequested { acquired, ellipse_x } => self.redraw(acquired, ellipse_x),
            Event::MainEventsCleared => Ok(Action::RequestRedraw),
            Event::Other => Ok(Action::Wait),
        }
    }
}

} // verus!
