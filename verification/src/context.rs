use vstd::prelude::*;

verus! {

/// Pixel format of a presentable surface or depth attachment.
#[derive(Clone, Copy, PartialEq, Eq, Structural, Debug)]
pub enum TextureFormat {
    Bgra8UnormSrgb,
    Rgba8UnormSrgb,
    Bgra8Unorm,
    Rgba8Unorm,
    Depth32Float,
}

/// How presented frames are paced. The context always configures `Fifo`
/// (vsync), but the configuration records the mode explicitly.
#[derive(Clone, Copy, PartialEq, Eq, Structural, Debug)]
pub enum PresentMode {
    Fifo,
    Mailbox,
    Immediate,
}

/// The window's physical size in pixels.
#[derive(Clone, Copy, PartialEq, Eq, Structural, Debug)]
pub struct SurfaceSize {
    pub width: u32,
    pub height: u32,
}

impl SurfaceSize {
    pub open spec fn non_zero(self) -> bool {
        self.width > 0 && self.height > 0
    }

    pub fn new(width: u32, height: u32) -> (r: SurfaceSize)
        ensures
            r.width == width,
            r.height == height,
    {
        SurfaceSize { width, height }
    }
}

/// The surface configuration: what the presentation layer is told whenever
/// the surface is (re)configured. Mutated only by `Bananas::resize`, and
/// only to strictly positive sizes.
#[derive(Clone, Copy, PartialEq, Eq, Structural, Debug)]
pub struct SurfaceConfiguration {
    pub width: u32,
    pub height: u32,
    pub format: TextureFormat,
    pub present_mode: PresentMode,
}

impl SurfaceConfiguration {
    pub open spec fn wf(self) -> bool {
        self.width > 0 && self.height > 0
    }
}

/// The graphics-context state the renderer's logic depends on: the surface
/// configuration and the last known window size, kept in lockstep. The
/// device, queue and surface objects themselves live outside this crate;
/// every decision about them is a function of this state.
#[derive(Clone, Copy, PartialEq, Eq, Structural, Debug)]
pub struct Bananas {
    pub config: SurfaceConfiguration,
    pub size: SurfaceSize,
}

/// The mathematical resize step: a zero-area request leaves the state
/// unchanged; a positive request updates the stored size and the
/// configuration's dimensions and keeps format and present mode.
pub open spec fn spec_resized(b: Bananas, new_size: SurfaceSize) -> Bananas {
    if new_size.width == 0 || new_size.height == 0 {
        b
    } else {
        Bananas {
            config: SurfaceConfiguration {
                width: new_size.width,
                height: new_size.height,
                format: b.config.format,
                present_mode: b.config.present_mode,
            },
            size: new_size,
        }
    }
}

impl Bananas {
    /// Configuration and last known size agree and are non-degenerate.
    pub open spec fn wf(self) -> bool {
        &&& self.config.wf()
        &&& self.config.width == self.size.width
        &&& self.config.height == self.size.height
    }

    /// Chooses the initial surface configuration for a window of the given
    /// physical size: the first format the adapter supports, FIFO pacing.
    /// Returns `None` exactly when no format is offered or the window has a
    /// zero dimension; the caller treats that as a fatal startup error.
    pub fn new(width: u32, height: u32, formats: &Vec<TextureFormat>) -> (r: Option<Bananas>)
        ensures
            r is Some <==> (width > 0 && height > 0 && formats.len() > 0),
            r matches Some(b) ==> {
                &&& b.wf()
                &&& b.size == (SurfaceSize { width, height })
                &&& b.config.width == width
                &&& b.config.height == height
                &&& b.config.format == formats[0]
                &&& b.config.present_mode == PresentMode::Fifo
            },
    {
        if width == 0 || height == 0 || formats.len() == 0 {
            None
        } else {
            let format = formats[0];
            Some(Bananas {
                config: SurfaceConfiguration {
                    width,
                    height,
                    format,
                    present_mode: PresentMode::Fifo,
                },
                size: SurfaceSize { width, height },
            })
        }
    }

    /// Applies a window resize. A request with a zero dimension is a no-op
    /// (a zero-area surface configuration is invalid); otherwise the stored
    /// size and the configuration's dimensions are updated and the surface
    /// must be reconfigured by the caller from the new `config`.
    pub fn resize(&mut self, new_size: SurfaceSize)
        ensures
            *final(self) == spec_resized(*old(self), new_size),
            !new_size.non_zero() ==> *final(self) == *old(self),
            new_size.non_zero() ==> {
                &&& final(self).size == new_size
                &&& final(self).config.width == new_size.width
                &&& final(self).config.height == new_size.height
                &&& final(self).config.format == old(self).config.format
                &&& final(self).config.present_mode == old(self).config.present_mode
            },
            old(self).wf() ==> final(self).wf(),
    {
        if new_size.width > 0 && new_size.height > 0 {
            self.size = new_size;
            self.config.width = new_size.width;
            self.config.height = new_size.height;
        }
    }
}

/// Resizing is idempotent: re-applying the same requested size leaves the
/// state exactly where the first application put it. In particular, after
/// a frame is reported lost twice in a row, the second reconfiguration with
/// the last known size changes nothing beyond the first.
pub proof fn lemma_resize_idempotent(b: Bananas, s: SurfaceSize)
    ensures
        spec_resized(spec_resized(b, s), s) == spec_resized(b, s),
{
}

/// Reconfiguring with the size a context already has leaves it unchanged.
pub proof fn lemma_resize_current_size_noop(b: Bananas)
    requires
        b.wf(),
    ensures
        spec_resized(b, b.size) == b,
{
}

/// The recoverable and fatal conditions the presentation layer can signal
/// while acquiring the next presentable frame.
#[derive(Clone, Copy, PartialEq, Eq, Structural, Debug)]
pub enum SurfaceError {
    Lost,
    Outdated,
    OutOfMemory,
    Timeout,
}

/// What the frame loop must do after `acquire_frame` fails.
#[derive(Clone, Copy, PartialEq, Eq, Structural, Debug)]
pub enum AcquireRecovery {
    /// Re-apply the last known size to context, camera and renderer, then
    /// continue.
    Reconfigure,
    /// Unrecoverable; the process should exit.
    Exit,
    /// Log a warning and skip the current frame.
    SkipFrame,
}

/// The error taxonomy: lost or outdated surfaces are repaired by
/// reconfiguration, out-of-memory is fatal, a timeout only skips the frame.
pub open spec fn spec_recovery_for(e: SurfaceError) -> AcquireRecovery {
    match e {
        SurfaceError::Lost => AcquireRecovery::Reconfigure,
        SurfaceError::Outdated => AcquireRecovery::Reconfigure,
        SurfaceError::OutOfMemory => AcquireRecovery::Exit,
        SurfaceError::Timeout => AcquireRecovery::SkipFrame,
    }
}

/// Maps an acquire failure to the action the loop takes.
pub fn recovery_for(e: SurfaceError) -> (r: AcquireRecovery)
    ensures
        r == spec_recovery_for(e),
{
    match e {
        SurfaceError::Lost | SurfaceError::Outdated => AcquireRecovery::Reconfigure,
        SurfaceError::OutOfMemory => AcquireRecovery::Exit,
        SurfaceError::Timeout => AcquireRecovery::SkipFrame,
    }
}

} // verus!
