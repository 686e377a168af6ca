//! Lifecycle of the render target across frames.
//!
//! The orchestrator keeps the sizes of the configured surface, of the depth
//! buffer and of the projection together: they always agree. A frame runs in
//! a fixed order: it begins (performing any reconfiguration left by the last
//! frame), the camera and light uniforms are written, and only then is the
//! surface image acquired and the pass recorded. Resizes are taken between
//! frames only.
use vstd::prelude::*;
use crate::pass::{PassCommand, Scene, record_scene_pass, scene_pass};

verus! {

/// Width and height of the surface, in physical pixels.
#[derive(Clone, Copy, Debug, PartialEq, Eq, Structural)]
pub struct SurfaceSize {
    pub width: u32,
    pub height: u32,
}

/// A surface can be configured only with a nonzero area.
pub open spec fn is_drawable(width: u32, height: u32) -> bool {
    width > 0 && height > 0
}

/// What came of asking the surface for its next image.
#[derive(Clone, Copy, Debug, PartialEq, Eq, Structural)]
pub enum SurfaceStatus {
    Acquired,
    Timeout,
    Outdated,
    Lost,
    OutOfMemory,
}

/// Why a frame was not drawn.
#[derive(Clone, Copy, Debug, PartialEq, Eq, Structural)]
pub enum RenderError {
    /// The surface went stale or was lost; it is reconfigured at the start of
    /// the next frame.
    Recoverable,
    /// The device ran out of memory; the caller stops rendering.
    Fatal,
    /// No image came in time; the frame is skipped.
    Transient,
}

/// The error that a surface status means, if any.
pub open spec fn error_of(status: SurfaceStatus) -> Option<RenderError> {
    match status {
        SurfaceStatus::Acquired => None,
        SurfaceStatus::Lost | SurfaceStatus::Outdated => Some(RenderError::Recoverable),
        SurfaceStatus::OutOfMemory => Some(RenderError::Fatal),
        SurfaceStatus::Timeout => Some(RenderError::Transient),
    }
}

pub fn classify(status: SurfaceStatus) -> (r: Option<RenderError>)
    ensures
        r == error_of(status),
{
    match status {
        SurfaceStatus::Acquired => None,
        SurfaceStatus::Lost | SurfaceStatus::Outdated => Some(RenderError::Recoverable),
        SurfaceStatus::OutOfMemory => Some(RenderError::Fatal),
        SurfaceStatus::Timeout => Some(RenderError::Transient),
    }
}

/// Index of the surface format to use, given for each offered format
/// whether it is sRGB: the first sRGB one, else the first one.
pub fn preferred_format_index(is_srgb: &Vec<bool>) -> (r: usize)
    requires
        is_srgb@.len() > 0,
    ensures
        r < is_srgb@.len(),
        is_srgb@[r as int] || r == 0,
        forall|k: int| 0 <= k < r ==> !is_srgb@[k],
        !is_srgb@[r as int] ==> forall|k: int| 0 <= k < is_srgb@.len() ==> !is_srgb@[k],
{
    let mut i: usize = 0;
    while i < is_srgb.len()
        invariant
            i <= is_srgb@.len(),
            forall|k: int| 0 <= k < i ==> !is_srgb@[k],
        decreases is_srgb@.len() - i,
    {
        if is_srgb[i] {
            return i;
        }
        i = i + 1;
    }
    0
}

/// Where the orchestrator stands within a frame.
#[derive(Clone, Copy, Debug, PartialEq, Eq, Structural)]
pub enum FramePhase {
    /// Between frames: resizes are taken here.
    Idle,
    /// The frame has begun; uniforms are being written.
    Begun,
    /// The uniforms are written; the pass may be recorded.
    Updated,
}

/// Sizes of the render target and the frame in progress.
#[derive(Clone, Copy, Debug)]
pub struct FrameOrchestrator {
    /// Size the surface is configured with.
    pub surface: SurfaceSize,
    /// Size of the depth buffer.
    pub depth: SurfaceSize,
    /// Size the projection's aspect ratio is taken from.
    pub projection: SurfaceSize,
    /// The surface must be configured again before the next image.
    pub reconfigure_pending: bool,
    pub phase: FramePhase,
}

impl FrameOrchestrator {
    pub open spec fn wf(&self) -> bool {
        &&& is_drawable(self.surface.width, self.surface.height)
        &&& self.depth == self.surface
        &&& self.projection == self.surface
    }

    /// The orchestrator after a resize request: a nonzero size replaces the
    /// surface, depth and projection sizes together; a zero area changes nothing.
    pub open spec fn after_resize(self, width: u32, height: u32) -> Self {
        if is_drawable(width, height) {
            let size = SurfaceSize { width, height };
            FrameOrchestrator {
                surface: size,
                depth: size,
                projection: size,
                reconfigure_pending: false,
                phase: self.phase,
            }
        } else {
            self
        }
    }

    /// The orchestrator once a frame has begun.
    pub open spec fn after_begin(self) -> Self {
        FrameOrchestrator { reconfigure_pending: false, phase: FramePhase::Begun, ..self }
    }

    /// The reconfiguration that beginning a frame performs, if any.
    pub open spec fn begin_reconfigure(self) -> Option<SurfaceSize> {
        if self.reconfigure_pending {
            Some(self.surface)
        } else {
            None
        }
    }

    /// The orchestrator once the frame's uniforms are written.
    pub open spec fn after_update(self) -> Self {
        FrameOrchestrator { phase: FramePhase::Updated, ..self }
    }

    /// The orchestrator after the surface answered with `status`: a stale or
    /// lost surface is marked for reconfiguration at its last size.
    pub open spec fn after_render(self, status: SurfaceStatus) -> Self {
        FrameOrchestrator {
            reconfigure_pending: self.reconfigure_pending || error_of(status) == Some(
                RenderError::Recoverable,
            ),
            phase: FramePhase::Idle,
            ..self
        }
    }

    /// A target of the given nonzero size, between frames.
    pub fn new(width: u32, height: u32) -> (r: Self)
        requires
            is_drawable(width, height),
        ensures
            r.wf(),
            r.surface == (SurfaceSize { width, height }),
            !r.reconfigure_pending,
            r.phase == FramePhase::Idle,
    {
        let size = SurfaceSize { width, height };
        FrameOrchestrator {
            surface: size,
            depth: size,
            projection: size,
            reconfigure_pending: false,
            phase: FramePhase::Idle,
        }
    }

    /// Takes a resize request between frames. Returns the size that the
    /// surface and depth buffer are to be rebuilt at, or `None` for a zero area.
    pub fn resize(&mut self, width: u32, height: u32) -> (r: Option<SurfaceSize>)
        requires
            old(self).wf(),
            old(self).phase == FramePhase::Idle,
        ensures
            *final(self) == old(self).after_resize(width, height),
            final(self).wf(),
            r == if is_drawable(width, height) {
                Some(SurfaceSize { width, height })
            } else {
                None
            },
    {
        if width > 0 && height > 0 {
            let size = SurfaceSize { width, height };
            self.surface = size;
            self.depth = size;
            self.projection = size;
            self.reconfigure_pending = false;
            Some(size)
        } else {
            None
        }
    }

    /// Starts a frame. Returns the size to reconfigure the surface at when
    /// the last frame found it stale or lost.
    pub fn begin_frame(&mut self) -> (r: Option<SurfaceSize>)
        requires
            old(self).wf(),
            old(self).phase == FramePhase::Idle,
        ensures
            *final(self) == old(self).after_begin(),
            r == old(self).begin_reconfigure(),
            final(self).wf(),
    {
        let r = if self.reconfigure_pending {
            Some(self.surface)
        } else {
            None
        };
        self.reconfigure_pending = false;
        self.phase = FramePhase::Begun;
        r
    }

    /// Marks the frame's camera and light uniforms as written.
    pub fn finish_update(&mut self)
        requires
            old(self).wf(),
            old(self).phase == FramePhase::Begun,
        ensures
            *final(self) == old(self).after_update(),
            final(self).wf(),
    {
        self.phase = FramePhase::Updated;
    }

    /// Ends the frame once the surface answered with `status`: on an image,
    /// returns the pass that draws `scene`; otherwise the error it means.
    pub fn render(&mut self, status: SurfaceStatus, scene: &Scene) -> (r: Result<
        Vec<PassCommand>,
        RenderError,
    >)
        requires
            old(self).wf(),
            old(self).phase == FramePhase::Updated,
        ensures
            *final(self) == old(self).after_render(status),
            final(self).wf(),
            r.is_ok() <==> error_of(status) is None,
            r matches Ok(cmds) ==> cmds@ == scene_pass(
                scene.light_meshes@,
                scene.model_mesh,
                scene.instance_count,
            ),
            r matches Err(e) ==> error_of(status) == Some(e),
    {
        self.phase = FramePhase::Idle;
        match classify(status) {
            None => Ok(record_scene_pass(scene)),
            Some(e) => {
                match e {
                    RenderError::Recoverable => {
                        self.reconfigure_pending = true;
                    },
                    _ => {},
                }
                Err(e)
            },
        }
    }
}

/// A zero-area resize changes nothing; any other resize leaves the surface at
/// the requested size with the depth buffer and projection matching it.
pub proof fn lemma_resize_keeps_depth_matched(o: FrameOrchestrator, width: u32, height: u32)
    requires
        o.wf(),
    ensures
        o.after_resize(width, height).wf(),
        o.after_resize(width, height).depth == o.after_resize(width, height).surface,
        !is_drawable(width, height) ==> o.after_resize(width, height) == o,
        is_drawable(width, height) ==> o.after_resize(width, height).surface == (SurfaceSize {
            width,
            height,
        }),
{
}

/// After two resizes the depth buffer and surface have the size of the later
/// one, or of the earlier one when the later has a zero area.
pub proof fn lemma_two_resizes(
    o: FrameOrchestrator,
    w1: u32,
    h1: u32,
    w2: u32,
    h2: u32,
)
    requires
        o.wf(),
        is_drawable(w1, h1),
    ensures
        ({
            let o2 = o.after_resize(w1, h1).after_resize(w2, h2);
            &&& o2.depth == o2.surface
            &&& o2.surface == if is_drawable(w2, h2) {
                SurfaceSize { width: w2, height: h2 }
            } else {
                SurfaceSize { width: w1, height: h1 }
            }
        }),
{
}

/// A frame that finds the surface stale or lost fails as recoverable; the
/// next frame reconfigures the surface at its last size, with the depth
/// buffer matching, and draws once an image is acquired.
pub proof fn lemma_lost_surface_recovers(o: FrameOrchestrator, status: SurfaceStatus)
    requires
        o.wf(),
        o.phase == FramePhase::Updated,
        status == SurfaceStatus::Lost || status == SurfaceStatus::Outdated,
    ensures
        error_of(status) == Some(RenderError::Recoverable),
        ({
            let failed = o.after_render(status);
            let next = failed.after_begin();
            &&& failed.wf()
            &&& failed.phase == FramePhase::Idle
            &&& failed.begin_reconfigure() == Some(o.surface)
            &&& next.surface == o.surface
            &&& next.depth == o.surface
            &&& next.wf()
            &&& error_of(SurfaceStatus::Acquired) is None
            &&& !next.after_update().after_render(SurfaceStatus::Acquired).reconfigure_pending
            &&& next.after_update().after_render(SurfaceStatus::Acquired).wf()
        }),
{
}

} // verus!
