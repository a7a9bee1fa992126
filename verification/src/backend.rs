//! The context backend: the minimal capability surface a rendering
//! abstraction needs to drive OpenGL through the windowing toolkit.
//!
//! [`SDL2Backend`] owns one native window handle and one native OpenGL
//! context handle created against that window.  Its operations are the
//! capability set the rendering abstraction calls back into: buffer swap,
//! current-context query and activation, proc-address resolution, and the
//! framebuffer's pixel dimensions.

use vstd::prelude::*;

use crate::errors::GliumGlueError;
use crate::platform::{Platform, WindowBuilder, WindowState, ContextState};
use crate::render::SwapBuffersError;

verus! {

/// The native window handle: an index into the platform's window table,
/// owned exclusively by the backend.
pub struct Window {
    id: usize,
}

/// The native OpenGL context handle: an index into the platform's context
/// table, owned exclusively by the backend and bound to the window that
/// produced it.
pub struct GLContext {
    id: usize,
    window_id: usize,
}

/// The context backend: the window and the OpenGL context created against
/// it, together with the capability operations the rendering abstraction
/// requires.
pub struct SDL2Backend {
    window: Window,
    context: GLContext,
}

impl SDL2Backend {
    /// The handle of the window this backend owns.
    pub closed spec fn window_id(self) -> usize {
        self.window.id
    }

    /// The handle of the native OpenGL context this backend owns.
    pub closed spec fn context_id(self) -> usize {
        self.context.id
    }

    /// The backend's own invariant: its context records the window it was
    /// created against, so it can only ever be made current with that
    /// window.
    pub closed spec fn wf(self) -> bool {
        self.context.window_id == self.window.id
    }

    /// Whether the backend's handles were issued by `p`, and `p` agrees
    /// that the context is bound to the backend's window.
    pub open spec fn valid_on(self, p: Platform) -> bool {
        &&& self.wf()
        &&& p.valid_window(self.window_id())
        &&& p.valid_context(self.context_id())
        &&& p.contexts[self.context_id() as int].window_id == self.window_id()
    }

    /// The window state the platform holds for this backend's window.
    pub open spec fn window_on(self, p: Platform) -> WindowState {
        p.windows[self.window_id() as int]
    }

    /// Whether this backend's context is the one current on the calling
    /// thread.
    pub open spec fn spec_is_current(self, p: Platform) -> bool {
        p.current == Some(self.context_id())
    }

    /// The framebuffer dimensions the platform reports for this backend's
    /// window.
    pub open spec fn spec_framebuffer_dimensions(self, p: Platform) -> (u32, u32) {
        (self.window_on(p).drawable_width, self.window_on(p).drawable_height)
    }

    /// Exec check of [`SDL2Backend::valid_on`]: whether this backend's
    /// handles were issued by `p` and `p` still agrees the context is
    /// bound to the backend's window.  Unverified callers can test the
    /// handle-validity preconditions of the capability operations with
    /// this before calling them.
    pub fn is_valid_on(&self, p: &Platform) -> (r: bool)
        ensures
            r == self.valid_on(*p),
    {
        self.context.window_id == self.window.id && self.window.id < p.windows.len()
            && self.context.id < p.contexts.len() && p.contexts[self.context.id].window_id
            == self.window.id
    }

    /// The window handle, for toolkit queries that go by the window
    /// (such as the display-index query).
    pub fn window_handle(&self) -> (r: usize)
        ensures
            r == self.window_id(),
    {
        self.window.id
    }

    /// Construct the backend: request an OpenGL-flagged window from the
    /// given configuration, then request a native context against that
    /// window.
    ///
    /// Either step failing at the toolkit level is surfaced as a typed
    /// [`GliumGlueError::ResourceCreationError`] rather than aborting; in
    /// this model only window creation can fail, since the window is
    /// always requested with the OpenGL flag.  On success the platform
    /// has gained exactly one window and one context bound to it, and
    /// nothing else changed.
    pub fn new(builder: &mut WindowBuilder, p: &mut Platform) -> (r: Result<
        SDL2Backend,
        GliumGlueError,
    >)
        ensures
            *final(builder) == (WindowBuilder { opengl: true, ..*old(builder) }),
            r is Ok <==> !old(p).out_of_resources && old(builder).width * old(p).scale
                <= u32::MAX && old(builder).height * old(p).scale <= u32::MAX,
            r matches Err(e) ==> *final(p) == *old(p) && (
            e matches GliumGlueError::ResourceCreationError(m) && m@ == old(
                p,
            ).spec_window_failure_message()),
            r matches Ok(b) ==> {
                &&& b.wf()
                &&& b.valid_on(*final(p))
                &&& b.window_id() == old(p).windows.len()
                &&& b.context_id() == old(p).contexts.len()
                &&& *final(p) == (Platform {
                    windows: final(p).windows,
                    contexts: final(p).contexts,
                    ..*old(p)
                })
                &&& final(p).windows@ == old(p).windows@.push(
                    (WindowState {
                        title: old(builder).title,
                        opengl: true,
                        width: old(builder).width,
                        height: old(builder).height,
                        drawable_width: (old(builder).width * old(p).scale) as u32,
                        drawable_height: (old(builder).height * old(p).scale) as u32,
                        display: if old(p).displays >= 1 { 0i32 } else { -1i32 },
                        swaps: 0,
                    }),
                )
                &&& final(p).contexts@ == old(p).contexts@.push(
                    (ContextState { window_id: b.window_id() }),
                )
            },
    {
        builder.opengl();
        let window_id: usize = match builder.build(p) {
            Ok(id) => id,
            Err(message) => {
                return Err(GliumGlueError::ResourceCreationError(message));
            },
        };
        let context_id: usize = match p.create_context(window_id) {
            Ok(id) => id,
            Err(message) => {
                return Err(GliumGlueError::ResourceCreationError(message));
            },
        };
        Ok(
            SDL2Backend {
                window: Window { id: window_id },
                context: GLContext { id: context_id, window_id },
            },
        )
    }

    /// Request that the toolkit present the window's back buffer.
    ///
    /// The toolkit's swap call has no failure path in this model, so the
    /// result is always `Ok`; the `Result` keeps room in the contract for
    /// a platform-level swap failure, as the abstraction requires.
    pub fn swap_buffers(&self, p: &mut Platform) -> (r: Result<(), SwapBuffersError>)
        requires
            self.valid_on(*old(p)),
            old(p).windows[self.window_id() as int].swaps < u64::MAX,
        ensures
            r is Ok,
            *final(p) == (Platform { windows: final(p).windows, ..*old(p) }),
            final(p).windows@ == old(p).spec_after_swap(self.window_id()),
    {
        p.gl_swap_window(self.window.id);
        Ok(())
    }

    /// Whether this backend's context is presently the current one on the
    /// calling thread.  Side-effect-free.
    pub fn is_current(&self, p: &Platform) -> (r: bool)
        ensures
            r == self.spec_is_current(*p),
    {
        match p.current {
            Some(current) => current == self.context.id,
            None => false,
        }
    }

    /// Bind this backend's context as current on the calling thread,
    /// against its originating window.
    ///
    /// The toolkit refuses a context paired with a foreign window; the
    /// backend's invariant rules that out, so the call cannot fail here.
    /// The caller is responsible for ordering this correctly relative to
    /// other context activity on the thread; nothing else on the platform
    /// changes.
    pub fn make_current(&self, p: &mut Platform)
        requires
            self.valid_on(*old(p)),
        ensures
            *final(p) == (Platform { current: Some(self.context_id()), ..*old(p) }),
            self.spec_is_current(*final(p)),
    {
        let r: Result<(), String> = p.gl_make_current(self.window.id, self.context.id);
        proof {
            assert(r is Ok);
        }
    }

    /// Resolve an OpenGL function name through the toolkit's subsystem.
    ///
    /// May only be called while a context is current.  Returns the
    /// loader's address, which is null (zero) exactly when the OpenGL
    /// implementation does not export the name; the caller interprets
    /// null as "function unavailable".
    pub fn get_proc_address(&self, p: &Platform, symbol: &str) -> (r: u64)
        requires
            p.current is Some,
        ensures
            r == p.proc_addr(symbol@),
            r == 0 <==> !p.exports_proc(symbol@),
    {
        p.gl_get_proc_address(symbol)
    }

    /// The window's current drawable size in pixels, which may exceed the
    /// logical window size under HiDPI scaling.  Side-effect-free, and
    /// read from the platform at call time, not cached.
    pub fn get_framebuffer_dimensions(&self, p: &Platform) -> (r: (u32, u32))
        requires
            self.valid_on(*p),
        ensures
            r == self.spec_framebuffer_dimensions(*p),
    {
        p.drawable_size(self.window.id)
    }
}

} // verus!
