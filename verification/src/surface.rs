//! The presentation target: how it is configured, and the one frame that may
//! be held at a time.

use vstd::prelude::*;

verus! {

/// Pixel formats a presentation target can have.
#[derive(Clone, Copy, Debug, PartialEq, Eq, Structural)]
pub enum TextureFormat {
    Rgba8Unorm,
    Rgba8UnormSrgb,
    Bgra8Unorm,
    Bgra8UnormSrgb,
}

/// How finished frames reach the screen.
#[derive(Clone, Copy, Debug, PartialEq, Eq, Structural)]
pub enum PresentMode {
    Immediate,
    Mailbox,
    Fifo,
}

/// What the images of the target may be used for.
#[derive(Clone, Copy, Debug, PartialEq, Eq, Structural)]
pub enum TextureUsage {
    CopySrc,
    CopyDst,
    Sampled,
    Storage,
    RenderAttachment,
}

/// A width and a height, in physical pixels.
#[derive(Clone, Copy, Debug, PartialEq, Eq, Structural)]
pub struct PhysicalSize {
    pub width: u32,
    pub height: u32,
}

/// Everything that fixes a presentation target.
#[derive(Clone, Copy, Debug, PartialEq, Eq, Structural)]
pub struct SwapChainDescriptor {
    pub usage: TextureUsage,
    pub format: TextureFormat,
    pub width: u32,
    pub height: u32,
    pub present_mode: PresentMode,
}

impl SwapChainDescriptor {
    /// The size the target is built at.
    pub open spec fn size(self) -> PhysicalSize {
        PhysicalSize { width: self.width, height: self.height }
    }
}

/// What the graphics layer reports when it cannot hand out the next image.
#[derive(Clone, Copy, Debug, PartialEq, Eq, Structural)]
pub enum SwapChainError {
    Timeout,
    Outdated,
    Lost,
    OutOfMemory,
}

/// The failures of an acquisition that pass by themselves.
#[derive(Clone, Copy, Debug, PartialEq, Eq, Structural)]
pub enum Transient {
    Timeout,
    Outdated,
}

/// Why no frame was acquired, by what the caller has to do about it.
#[derive(Clone, Copy, Debug, PartialEq, Eq, Structural)]
pub enum AcquireError {
    /// The target is stale: rebuild it, then try again at the next tick.
    Lost,
    /// Nothing can be done: terminate.
    OutOfMemory,
    /// Skip this tick and try again at the next one, without rebuilding.
    Transient(Transient),
}

impl SwapChainError {
    /// The class a report falls in.
    pub open spec fn class(self) -> AcquireError {
        match self {
            SwapChainError::Lost => AcquireError::Lost,
            SwapChainError::OutOfMemory => AcquireError::OutOfMemory,
            SwapChainError::Timeout => AcquireError::Transient(Transient::Timeout),
            SwapChainError::Outdated => AcquireError::Transient(Transient::Outdated),
        }
    }

    /// Sorts a report of the graphics layer into one of the three classes that
    /// the renderer tells apart.
    pub fn classify(self) -> (e: AcquireError)
        ensures
            e == self.class(),
    {
        match self {
            SwapChainError::Lost => AcquireError::Lost,
            SwapChainError::OutOfMemory => AcquireError::OutOfMemory,
            SwapChainError::Timeout => AcquireError::Transient(Transient::Timeout),
            SwapChainError::Outdated => AcquireError::Transient(Transient::Outdated),
        }
    }
}

/// A presentable image that has been handed out and not yet given back.
/// It remembers the size of the target it was taken from.
#[derive(Clone, Copy, Debug, PartialEq, Eq, Structural)]
pub struct AcquiredFrame {
    pub width: u32,
    pub height: u32,
}

/// The presentation target and the frame in flight, if any.
///
/// `current_target` is `Some` only between an acquisition and the release that
/// follows it.
#[derive(Clone, Copy, Debug, PartialEq, Eq, Structural)]
pub struct SurfaceSession {
    pub desc: SwapChainDescriptor,
    pub current_target: Option<AcquiredFrame>,
}

impl SurfaceSession {
    /// A frame in flight was taken from the target as it is configured now.
    pub open spec fn wf(self) -> bool {
        self.current_target matches Some(frame) ==> frame.width == self.desc.width && frame.height
            == self.desc.height
    }

    /// The frame that an acquisition from this target yields.
    pub open spec fn next_frame(self) -> AcquiredFrame {
        AcquiredFrame { width: self.desc.width, height: self.desc.height }
    }

    /// A session for a target that shows render output in `format`, first in,
    /// first out, at the given size. No frame is in flight.
    pub fn new(format: TextureFormat, width: u32, height: u32) -> (s: SurfaceSession)
        ensures
            s.wf(),
            s.current_target is None,
            s.desc == (SwapChainDescriptor {
                usage: TextureUsage::RenderAttachment,
                format,
                width,
                height,
                present_mode: PresentMode::Fifo,
            }),
    {
        SurfaceSession {
            desc: SwapChainDescriptor {
                usage: TextureUsage::RenderAttachment,
                format,
                width,
                height,
                present_mode: PresentMode::Fifo,
            },
            current_target: None,
        }
    }

    /// Rebuilds the target at the given size. A frame in flight is invalidated:
    /// afterwards none is held. Returns the description to build the target from.
    pub fn configure(&mut self, width: u32, height: u32) -> (desc: SwapChainDescriptor)
        ensures
            final(self).wf(),
            final(self).current_target is None,
            final(self).desc == (SwapChainDescriptor { width, height, ..old(self).desc }),
            desc == final(self).desc,
    {
        self.desc.width = width;
        self.desc.height = height;
        self.current_target = None;
        self.desc
    }

    /// Records what an attempt to obtain the next image gave.
    ///
    /// On success the frame is held from now on. On failure none is held and
    /// the report is sorted into its class. The configuration is not touched
    /// either way. Acquiring while a frame is held is a defect of the caller.
    pub fn acquire(&mut self, outcome: Result<(), SwapChainError>) -> (r: Result<
        AcquiredFrame,
        AcquireError,
    >)
        requires
            old(self).current_target is None,
        ensures
            final(self).wf(),
            final(self).desc == old(self).desc,
            final(self).current_target == r.ok(),
            match outcome {
                Ok(_) => r == Ok::<AcquiredFrame, AcquireError>(old(self).next_frame()),
                Err(e) => r == Err::<AcquiredFrame, AcquireError>(e.class()),
            },
    {
        match outcome {
            Ok(_) => {
                let frame = AcquiredFrame { width: self.desc.width, height: self.desc.height };
                self.current_target = Some(frame);
                Ok(frame)
            },
            Err(e) => Err(e.classify()),
        }
    }

    /// Gives the held frame back, which presents it. Must follow each
    /// successful acquisition once, after the frame's last submission.
    pub fn release(&mut self, frame: AcquiredFrame)
        requires
            old(self).current_target == Some(frame),
        ensures
            final(self).wf(),
            final(self).current_target is None,
            final(self).desc == old(self).desc,
    {
        self.current_target = None;
    }
}

} // verus!
