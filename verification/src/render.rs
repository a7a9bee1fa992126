//! The rendering abstraction's side of the glue: capability negotiation,
//! the shared rendering context, and the per-draw-cycle frame.
//!
//! [`RenderContext::new`] mirrors the abstraction's context constructor:
//! it makes the backend's context current, inspects the OpenGL
//! implementation, and either returns a shared rendering context or
//! reports which required capabilities are missing.  The minimum feature
//! set, and the wording of the report, follow the abstraction's own
//! rules: buffer objects need version 1.5, vertex/fragment shaders need
//! 2.0, framebuffers and framebuffer blitting need 3.0, so an
//! extensionless desktop implementation is accepted from version 3.0 on.

use vstd::prelude::*;
use vstd::string::StringExecFns;

use std::rc::Rc;

use crate::backend::SDL2Backend;
use crate::platform::Platform;

verus! {

/// Error returned by capability negotiation when the OpenGL
/// implementation is below the abstraction's minimum: one line per
/// missing capability.
#[derive(Debug)]
pub struct IncompatibleOpenGl(pub String);

/// The debug-output policy the rendering context registers at
/// negotiation.  (The abstraction also offers a custom-callback policy;
/// it is not modeled here.)
#[derive(Clone, Copy, Debug, PartialEq, Eq, Structural)]
pub enum DebugCallbackBehavior {
    /// Register nothing.
    Ignore,
    /// Report debug messages on errors only, not warnings or
    /// performance notes.
    DebugMessageOnError,
    /// Report every debug message.
    PrintAll,
}

/// Failure modes of presenting a frame's back buffer.
#[derive(Clone, Copy, Debug, PartialEq, Eq, Structural)]
pub enum SwapBuffersError {
    /// The OpenGL context has been lost and must be recreated.
    ContextLost,
    /// The buffers have already been swapped for this frame.
    AlreadySwapped,
}

/// Whether the platform's OpenGL implementation satisfies the
/// abstraction's minimum feature set: with no optional extensions, a
/// desktop implementation of at least version 3.0.
pub open spec fn spec_compatible(p: Platform) -> bool {
    p.version_at_least(3, 0)
}

/// The report negotiation gives for an incompatible implementation: one
/// line per missing capability, oldest requirement first.
pub open spec fn spec_incompat_report(p: Platform) -> Seq<char> {
    (if !p.version_at_least(1, 5) {
        "OpenGL implementation doesn't support buffer objects"@ + "\n"@
    } else {
        Seq::<char>::empty()
    }) + (if !p.version_at_least(2, 0) {
        "OpenGL implementation doesn't support vertex/fragment shaders"@ + "\n"@
    } else {
        Seq::<char>::empty()
    }) + "OpenGL implementation doesn't support framebuffers"@ + "\n"@
        + "OpenGL implementation doesn't support blitting framebuffers"@
}

/// Builds the incompatibility report for a platform below the minimum.
fn incompat_report(p: &Platform) -> (r: String)
    requires
        !spec_compatible(*p),
    ensures
        r@ == spec_incompat_report(*p),
{
    let mut report = String::new();
    if !p.gl_version_at_least(1, 5) {
        report.append("OpenGL implementation doesn't support buffer objects");
        report.append("\n");
    }
    if !p.gl_version_at_least(2, 0) {
        report.append("OpenGL implementation doesn't support vertex/fragment shaders");
        report.append("\n");
    }
    report.append("OpenGL implementation doesn't support framebuffers");
    report.append("\n");
    report.append("OpenGL implementation doesn't support blitting framebuffers");
    proof {
        assert(report@ =~= spec_incompat_report(*p));
    }
    report
}

/// The capability-negotiated shared rendering context.  It keeps its own
/// shared reference to the backend, which it calls back into for swap
/// and current-context operations for as long as it exists; the facade
/// holds another reference, and the backend is destroyed only when both
/// release it.
pub struct RenderContext {
    /// The backend this context was negotiated against; shared with the
    /// facade.
    pub backend: Rc<SDL2Backend>,
    /// Whether operations should re-check that the context is current
    /// before issuing commands.
    pub check_current_context: bool,
    /// The debug-output policy registered at negotiation.
    pub debug_behavior: DebugCallbackBehavior,
    /// Major version the implementation reported at negotiation.
    pub gl_major: u32,
    /// Minor version the implementation reported at negotiation.
    pub gl_minor: u32,
}

impl RenderContext {
    /// Capability negotiation: make the backend's context current, then
    /// accept the OpenGL implementation if it meets the minimum feature
    /// set, registering the given debug-output policy.
    ///
    /// The context is made current whichever way negotiation ends.
    /// Success and failure partition the platforms: the result is `Ok`
    /// exactly when the implementation is compatible, and the error
    /// otherwise carries the report of missing capabilities.
    pub fn new(
        backend: Rc<SDL2Backend>,
        check_current_context: bool,
        debug_behavior: DebugCallbackBehavior,
        p: &mut Platform,
    ) -> (r: Result<Rc<RenderContext>, IncompatibleOpenGl>)
        requires
            backend.valid_on(*old(p)),
        ensures
            *final(p) == (Platform { current: Some(backend.context_id()), ..*old(p) }),
            r is Ok <==> spec_compatible(*old(p)),
            r matches Ok(c) ==> c == (RenderContext {
                backend,
                check_current_context,
                debug_behavior,
                gl_major: old(p).gl_major,
                gl_minor: old(p).gl_minor,
            }),
            r matches Err(e) ==> e.0@ == spec_incompat_report(*old(p)),
    {
        backend.make_current(p);
        if p.gl_version_at_least(3, 0) {
            Ok(
                Rc::new(
                    RenderContext {
                        backend,
                        check_current_context,
                        debug_behavior,
                        gl_major: p.gl_major,
                        gl_minor: p.gl_minor,
                    },
                ),
            )
        } else {
            Err(IncompatibleOpenGl(incompat_report(p)))
        }
    }

    /// Present the back buffer of the backend's window: the rendering
    /// context's callback into the backend.
    pub fn swap_buffers(&self, p: &mut Platform) -> (r: Result<(), SwapBuffersError>)
        requires
            self.backend.valid_on(*old(p)),
            old(p).windows[self.backend.window_id() as int].swaps < u64::MAX,
        ensures
            r is Ok,
            *final(p) == (Platform { windows: final(p).windows, ..*old(p) }),
            final(p).windows@ == old(p).spec_after_swap(self.backend.window_id()),
    {
        self.backend.swap_buffers(p)
    }
}

/// A scoped per-draw-cycle surface, bound to the framebuffer dimensions
/// that were current when the frame began and to the shared rendering
/// context.  Finishing the frame presents the back buffer exactly once.
pub struct Frame {
    /// The shared rendering context the frame draws through.
    pub context: Rc<RenderContext>,
    /// Frame width in pixels, as queried when the frame began.
    pub width: u32,
    /// Frame height in pixels, as queried when the frame began.
    pub height: u32,
    /// Whether the frame's buffers have already been swapped.
    pub finished: bool,
}

impl Frame {
    /// Begin a frame bound to the given rendering context and
    /// dimensions.
    pub fn new(context: Rc<RenderContext>, dimensions: (u32, u32)) -> (f: Frame)
        ensures
            f == (Frame {
                context,
                width: dimensions.0,
                height: dimensions.1,
                finished: false,
            }),
    {
        Frame { context, width: dimensions.0, height: dimensions.1, finished: false }
    }

    /// Stop drawing and present the back buffer, leaving the frame
    /// marked finished.  Presents exactly once across the frame's life:
    /// a repeated call reports `AlreadySwapped` and presents nothing.
    pub fn set_finish(&mut self, p: &mut Platform) -> (r: Result<(), SwapBuffersError>)
        requires
            old(self).context.backend.valid_on(*old(p)),
            old(p).windows[old(self).context.backend.window_id() as int].swaps < u64::MAX,
        ensures
            *final(self) == (Frame { finished: true, ..*old(self) }),
            r is Ok <==> !old(self).finished,
            old(self).finished ==> r == Result::<(), SwapBuffersError>::Err(
                SwapBuffersError::AlreadySwapped,
            ) && *final(p) == *old(p),
            !old(self).finished ==> *final(p) == (Platform {
                windows: final(p).windows,
                ..*old(p)
            }) && final(p).windows@ == old(p).spec_after_swap(
                old(self).context.backend.window_id(),
            ),
    {
        if self.finished {
            return Err(SwapBuffersError::AlreadySwapped);
        }
        self.finished = true;
        self.context.swap_buffers(p)
    }

    /// Stop drawing, present the back buffer, and consume the frame.
    /// On a frame that has not been finished before, this triggers
    /// exactly one buffer swap.
    pub fn finish(self, p: &mut Platform) -> (r: Result<(), SwapBuffersError>)
        requires
            self.context.backend.valid_on(*old(p)),
            old(p).windows[self.context.backend.window_id() as int].swaps < u64::MAX,
        ensures
            r is Ok <==> !self.finished,
            self.finished ==> *final(p) == *old(p),
            !self.finished ==> *final(p) == (Platform { windows: final(p).windows, ..*old(p) })
                && final(p).windows@ == old(p).spec_after_swap(self.context.backend.window_id()),
    {
        let mut frame = self;
        frame.set_finish(p)
    }
}

} // verus!
