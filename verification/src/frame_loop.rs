use vstd::prelude::*;
use crate::camera::Camera;
use crate::context::{recovery_for, spec_resized, AcquireRecovery, Bananas, SurfaceError, SurfaceSize};
use crate::renderer::Renderer;

verus! {

/// The window and input events the loop consumes, one per iteration.
#[derive(Clone, Copy, PartialEq, Eq, Structural, Debug)]
pub enum LoopEvent {
    CloseRequested,
    EscapePressed,
    OverlayTogglePressed,
    Resized(u32, u32),
    ScaleFactorChanged(u32, u32),
    RedrawRequested,
    MainEventsCleared,
    Other,
}

/// What the platform loop must do next.
#[derive(Clone, Copy, PartialEq, Eq, Structural, Debug)]
pub enum LoopAction {
    /// Leave the event loop.
    Exit,
    /// Record and present a frame now.
    Redraw,
    /// Ask the window system for another redraw.
    RequestRedraw,
    /// Log a warning and skip the current frame.
    SkipFrame,
    /// Nothing further this iteration.
    Continue,
}

/// The application state the loop drives: the graphics context, the
/// camera and the renderer, kept in lockstep with the window size.
pub struct App {
    pub bananas: Bananas,
    pub camera: Camera,
    pub renderer: Renderer,
    /// Whether the external immediate-mode overlay draws its own pass
    /// after the core renderer's; flipped by its dedicated key.
    pub overlay_visible: bool,
}

impl App {
    /// Every component is consistent and sized to the current surface:
    /// the camera's viewport and the renderer's depth buffer both match
    /// the surface configuration.
    pub open spec fn wf(self) -> bool {
        &&& self.bananas.wf()
        &&& self.camera.wf()
        &&& self.renderer.wf()
        &&& self.camera.width == self.bananas.config.width
        &&& self.camera.height == self.bananas.config.height
        &&& self.renderer.depth_matches(self.bananas)
    }

    /// Assembles the application state, sizing the camera and the depth
    /// buffer to the context's current surface.
    pub fn new(bananas: Bananas, camera: Camera, renderer: Renderer) -> (r: App)
        requires
            bananas.wf(),
            camera.wf(),
            renderer.wf(),
        ensures
            r.wf(),
            r.bananas == bananas,
            r.camera.eye == camera.eye,
            !r.overlay_visible,
    {
        let mut camera = camera;
        let mut renderer = renderer;
        camera.resize(bananas.config.width, bananas.config.height);
        renderer.resize(&bananas);
        App { bananas, camera, renderer, overlay_visible: false }
    }

    /// Applies a window resize to the three components in their required
    /// order: context first, then camera, then renderer, so neither the
    /// projection nor the depth buffer can go stale against the freshly
    /// reconfigured surface. A zero-area request changes nothing.
    pub fn apply_resize(&mut self, width: u32, height: u32)
        requires
            old(self).wf(),
        ensures
            final(self).wf(),
            final(self).bananas == spec_resized(
                old(self).bananas,
                SurfaceSize { width, height },
            ),
            final(self).camera.eye == old(self).camera.eye,
            final(self).overlay_visible == old(self).overlay_visible,
            (width == 0 || height == 0) ==> {
                &&& final(self).bananas == old(self).bananas
                &&& final(self).camera == old(self).camera
                &&& final(self).renderer == old(self).renderer
            },
            (width > 0 && height > 0) ==> {
                &&& final(self).camera.width == width
                &&& final(self).camera.height == height
                &&& final(self).renderer.depth_size == Some(SurfaceSize { width, height })
            },
    {
        if width > 0 && height > 0 {
            self.bananas.resize(SurfaceSize { width, height });
            self.camera.resize(width, height);
            self.renderer.resize(&self.bananas);
        }
    }

    /// Handles one delivered event: close or escape leaves the loop, a
    /// resize or scale-factor change re-sizes context, camera and
    /// renderer in that order, a redraw request draws, and the
    /// end-of-batch marker asks for the next redraw.
    pub fn handle_event(&mut self, event: LoopEvent) -> (a: LoopAction)
        requires
            old(self).wf(),
        ensures
            final(self).wf(),
            match event {
                LoopEvent::CloseRequested | LoopEvent::EscapePressed => a == LoopAction::Exit,
                LoopEvent::OverlayTogglePressed => {
                    &&& a == LoopAction::Continue
                    &&& final(self).overlay_visible == !old(self).overlay_visible
                },
                LoopEvent::Resized(w, h) | LoopEvent::ScaleFactorChanged(w, h) => {
                    &&& a == LoopAction::Continue
                    &&& final(self).bananas == spec_resized(
                        old(self).bananas,
                        SurfaceSize { width: w, height: h },
                    )
                    &&& (w > 0 && h > 0) ==> (final(self).camera.width == w
                        && final(self).camera.height == h && final(self).renderer.depth_size
                        == Some(SurfaceSize { width: w, height: h }))
                },
                LoopEvent::RedrawRequested => a == LoopAction::Redraw,
                LoopEvent::MainEventsCleared => a == LoopAction::RequestRedraw,
                LoopEvent::Other => a == LoopAction::Continue,
            },
            match event {
                LoopEvent::Resized(w, h) | LoopEvent::ScaleFactorChanged(w, h) => {
                    final(self).overlay_visible == old(self).overlay_visible
                },
                LoopEvent::OverlayTogglePressed => {
                    &&& final(self).bananas == old(self).bananas
                    &&& final(self).camera == old(self).camera
                    &&& final(self).renderer == old(self).renderer
                },
                _ => {
                    &&& final(self).bananas == old(self).bananas
                    &&& final(self).camera == old(self).camera
                    &&& final(self).renderer == old(self).renderer
                    &&& final(self).overlay_visible == old(self).overlay_visible
                },
            },
    {
        match event {
            LoopEvent::CloseRequested | LoopEvent::EscapePressed => LoopAction::Exit,
            LoopEvent::OverlayTogglePressed => {
                self.overlay_visible = !self.overlay_visible;
                LoopAction::Continue
            },
            LoopEvent::Resized(w, h) | LoopEvent::ScaleFactorChanged(w, h) => {
                self.apply_resize(w, h);
                LoopAction::Continue
            },
            LoopEvent::RedrawRequested => LoopAction::Redraw,
            LoopEvent::MainEventsCleared => LoopAction::RequestRedraw,
            LoopEvent::Other => LoopAction::Continue,
        }
    }

    /// Handles the outcome of drawing one frame. A lost or outdated
    /// surface is repaired by re-applying the last known size to context,
    /// camera and renderer — on a well-formed state that reconfiguration
    /// visibly changes nothing. Out-of-memory leaves the loop; a timeout
    /// only skips the frame.
    pub fn handle_frame_outcome(&mut self, outcome: Result<(), SurfaceError>) -> (a: LoopAction)
        requires
            old(self).wf(),
        ensures
            final(self).wf(),
            final(self).bananas == old(self).bananas,
            final(self).camera == old(self).camera,
            final(self).overlay_visible == old(self).overlay_visible,
            match outcome {
                Ok(()) => a == LoopAction::Continue,
                Err(e) => match crate::context::spec_recovery_for(e) {
                    AcquireRecovery::Reconfigure => {
                        &&& a == LoopAction::Continue
                        &&& final(self).renderer.depth_size == Some(old(self).bananas.size)
                    },
                    AcquireRecovery::Exit => a == LoopAction::Exit,
                    AcquireRecovery::SkipFrame => a == LoopAction::SkipFrame,
                },
            },
            outcome is Ok ==> final(self).renderer == old(self).renderer,
    {
        match outcome {
            Ok(()) => LoopAction::Continue,
            Err(e) => match recovery_for(e) {
                AcquireRecovery::Reconfigure => {
                    let size = self.bananas.size;
                    self.apply_resize(size.width, size.height);
                    LoopAction::Continue
                },
                AcquireRecovery::Exit => LoopAction::Exit,
                AcquireRecovery::SkipFrame => LoopAction::SkipFrame,
            },
        }
    }
}

/// Repairing a lost surface twice in a row is idempotent: re-applying
/// the last known size a second time yields exactly the state the first
/// application produced.
pub proof fn lemma_repeated_reconfigure_stable(b: Bananas)
    requires
        b.wf(),
    ensures
        spec_resized(spec_resized(b, b.size), spec_resized(b, b.size).size) == spec_resized(
            b,
            b.size,
        ),
{
    crate::context::lemma_resize_current_size_noop(b);
}

} // verus!
