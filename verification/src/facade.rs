//! The application-facing facade: the backend bundled with the shared
//! rendering context, and the single construction entry point.
//!
//! Construction is the one place the two halves meet: the builder asks
//! the toolkit for an OpenGL-flagged window and a native context, wraps
//! them as the context backend, and hands a shared reference to the
//! backend into the rendering abstraction's negotiation.  The facade
//! retains both shared handles; the backend is released only when the
//! facade and the rendering context both let go.

use vstd::prelude::*;

use std::rc::Rc;

use crate::backend::SDL2Backend;
use crate::errors::GliumGlueError;
use crate::platform::{ContextState, Platform, WindowBuilder, WindowState};
use crate::render::{
    spec_compatible, spec_incompat_report, DebugCallbackBehavior, Frame, RenderContext,
};

verus! {

/// Whether the toolkit can create the window this configuration asks
/// for: it has resources, and the drawable size fits its pixel
/// coordinates.
pub open spec fn spec_window_creatable(b: WindowBuilder, p: Platform) -> bool {
    &&& !p.out_of_resources
    &&& b.width * p.scale <= u32::MAX
    &&& b.height * p.scale <= u32::MAX
}

/// Whether building a facade from this configuration succeeds on this
/// platform: the window can be created and the OpenGL implementation
/// meets the abstraction's minimum.
pub open spec fn spec_buildable(b: WindowBuilder, p: Platform) -> bool {
    spec_window_creatable(b, p) && spec_compatible(p)
}

/// The window a build creates: the configuration's attributes with the
/// OpenGL flag forced on, scaled to the platform's drawable
/// coordinates, on the first display when one is attached, never yet
/// presented.
pub open spec fn spec_built_window(b: WindowBuilder, p: Platform) -> WindowState {
    WindowState {
        title: b.title,
        opengl: true,
        width: b.width,
        height: b.height,
        drawable_width: (b.width * p.scale) as u32,
        drawable_height: (b.height * p.scale) as u32,
        display: if p.displays >= 1 {
            0i32
        } else {
            -1i32
        },
        swaps: 0,
    }
}

/// How a build leaves the platform `p` it started from: one new window
/// with handle `wid`, one new context with handle `cid` bound to it,
/// that context current on the thread, and nothing else changed.
pub open spec fn spec_platform_after_build(
    b: WindowBuilder,
    p: Platform,
    q: Platform,
    wid: usize,
    cid: usize,
) -> bool {
    &&& wid == p.windows.len()
    &&& cid == p.contexts.len()
    &&& q == (Platform { windows: q.windows, contexts: q.contexts, current: Some(cid), ..p })
    &&& q.windows@ == p.windows@.push(spec_built_window(b, p))
    &&& q.contexts@ == p.contexts@.push((ContextState { window_id: wid }))
}

/// The application-facing handle: the context backend and the
/// capability-negotiated rendering context, sharing the backend between
/// them.
pub struct SDL2Facade {
    /// The context backend, shared with the rendering context.
    pub backend: Rc<SDL2Backend>,
    /// The shared rendering context produced by negotiation.
    pub context: Rc<RenderContext>,
}

impl SDL2Facade {
    /// The facade's invariant: its rendering context calls back into
    /// the very backend the facade holds.
    pub open spec fn wf(self) -> bool {
        self.context.backend == self.backend
    }

    /// Begin a frame bound to the shared rendering context and to the
    /// framebuffer dimensions, queried fresh from the backend at call
    /// time.  The caller draws, then finishes the frame, which presents
    /// the back buffer.
    pub fn draw(&self, p: &Platform) -> (f: Frame)
        requires
            self.backend.valid_on(*p),
        ensures
            f == (Frame {
                context: self.context,
                width: self.backend.spec_framebuffer_dimensions(*p).0,
                height: self.backend.spec_framebuffer_dimensions(*p).1,
                finished: false,
            }),
    {
        Frame::new(Rc::clone(&self.context), self.backend.get_framebuffer_dimensions(p))
    }

    /// Ask the toolkit which physical display the window currently
    /// occupies; the toolkit's own error message is propagated verbatim
    /// when the window is not associated with any attached display.
    pub fn display_index(&self, p: &Platform) -> (r: Result<i32, String>)
        requires
            self.backend.valid_on(*p),
        ensures
            r matches Ok(d) ==> d == self.backend.window_on(*p).display,
            r is Ok <==> 0 <= self.backend.window_on(*p).display < p.displays,
            r matches Err(m) ==> m@ == "the window is not associated with any display"@,
    {
        p.display_index(self.backend.window_handle())
    }

    /// The shared rendering context: the hook the rendering abstraction
    /// uses to reach OpenGL state through the facade.
    pub fn get_context(&self) -> (r: &Rc<RenderContext>)
        ensures
            *r == self.context,
    {
        &self.context
    }
}

/// Builders that can put up a facade over the rendering abstraction.
pub trait DisplayBuild {
    /// The facade a successful build yields.
    type Facade;

    /// The error a failed build reports.
    type Err;

    /// Build a facade against the given platform.
    fn build_glium(&mut self, p: &mut Platform) -> Result<Self::Facade, Self::Err>;
}

impl WindowBuilder {
    /// The single construction entry point, with an explicit
    /// debug-output policy.
    ///
    /// Sequence: request an OpenGL-flagged window and a native context
    /// (the context backend), then hand a shared handle to the backend
    /// into the rendering abstraction's negotiation.  The outcome
    /// partitions the inputs: a facade exactly when the window can be
    /// created and the OpenGL implementation is compatible; the typed
    /// resource error, with the platform untouched, when the toolkit
    /// cannot create the window; and the "incompatible rendering
    /// context" error otherwise, the window and context then already
    /// created and current, as the abstraction leaves them.
    pub fn build_glium_with_debug(
        &mut self,
        p: &mut Platform,
        debug_behavior: DebugCallbackBehavior,
    ) -> (r: Result<SDL2Facade, GliumGlueError>)
        ensures
            *final(self) == (WindowBuilder { opengl: true, ..*old(self) }),
            r is Ok <==> spec_buildable(*old(self), *old(p)),
            !spec_window_creatable(*old(self), *old(p)) ==> *final(p) == *old(p) && (
            r matches Err(e) && e matches GliumGlueError::ResourceCreationError(m) && m@ == old(
                p,
            ).spec_window_failure_message()),
            spec_window_creatable(*old(self), *old(p)) && !spec_compatible(*old(p)) ==> (
            r matches Err(e) && e matches GliumGlueError::ContextCreationError(inc) && inc.0@
                == spec_incompat_report(*old(p))) && spec_platform_after_build(
                *old(self),
                *old(p),
                *final(p),
                old(p).windows@.len() as usize,
                old(p).contexts@.len() as usize,
            ),
            r matches Ok(f) ==> {
                &&& f.wf()
                &&& f.backend.wf()
                &&& f.backend.valid_on(*final(p))
                &&& spec_platform_after_build(
                    *old(self),
                    *old(p),
                    *final(p),
                    f.backend.window_id(),
                    f.backend.context_id(),
                )
                &&& f.backend.spec_is_current(*final(p))
                &&& f.backend.window_on(*final(p)).swaps == 0
                &&& f.context.check_current_context == true
                &&& f.context.debug_behavior == debug_behavior
                &&& f.context.gl_major == old(p).gl_major
                &&& f.context.gl_minor == old(p).gl_minor
            },
    {
        let backend: Rc<SDL2Backend> = match SDL2Backend::new(self, p) {
            Ok(b) => Rc::new(b),
            Err(e) => {
                return Err(e);
            },
        };
        let context: Rc<RenderContext> = match RenderContext::new(
            Rc::clone(&backend),
            true,
            debug_behavior,
            p,
        ) {
            Ok(c) => c,
            Err(incompatible) => {
                return Err(GliumGlueError::from(incompatible));
            },
        };
        Ok(SDL2Facade { backend, context })
    }
}

impl DisplayBuild for WindowBuilder {
    type Facade = SDL2Facade;

    type Err = GliumGlueError;

    /// The entry point spec-described for applications: build with the
    /// reference debug policy, reporting debug messages on errors only.
    ///
    /// The contract is the two-outcome totality of construction: a
    /// facade exactly when the toolkit can create the window and the
    /// OpenGL implementation meets the abstraction's minimum; the typed
    /// resource error, with the platform untouched, when the toolkit
    /// cannot create the window; and the "incompatible rendering
    /// context" error, wrapping the report of missing capabilities,
    /// otherwise.
    fn build_glium(&mut self, p: &mut Platform) -> (r: Result<SDL2Facade, GliumGlueError>)
        ensures
            *final(self) == (WindowBuilder { opengl: true, ..*old(self) }),
            r is Ok <==> spec_buildable(*old(self), *old(p)),
            !spec_window_creatable(*old(self), *old(p)) ==> *final(p) == *old(p) && (
            r matches Err(e) && e matches GliumGlueError::ResourceCreationError(m) && m@ == old(
                p,
            ).spec_window_failure_message()),
            spec_window_creatable(*old(self), *old(p)) && !spec_compatible(*old(p)) ==> (
            r matches Err(e) && e matches GliumGlueError::ContextCreationError(inc) && inc.0@
                == spec_incompat_report(*old(p))) && spec_platform_after_build(
                *old(self),
                *old(p),
                *final(p),
                old(p).windows@.len() as usize,
                old(p).contexts@.len() as usize,
            ),
            r matches Ok(f) ==> {
                &&& f.wf()
                &&& f.backend.wf()
                &&& f.backend.valid_on(*final(p))
                &&& spec_platform_after_build(
                    *old(self),
                    *old(p),
                    *final(p),
                    f.backend.window_id(),
                    f.backend.context_id(),
                )
                &&& f.backend.spec_is_current(*final(p))
                &&& f.backend.window_on(*final(p)).swaps == 0
                &&& f.context.check_current_context == true
                &&& f.context.debug_behavior == DebugCallbackBehavior::DebugMessageOnError
                &&& f.context.gl_major == old(p).gl_major
                &&& f.context.gl_minor == old(p).gl_minor
            },
    {
        self.build_glium_with_debug(p, DebugCallbackBehavior::DebugMessageOnError)
    }
}

} // verus!
