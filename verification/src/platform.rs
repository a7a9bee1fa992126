//! A model of the two collaborators the glue talks to: the windowing
//! toolkit (window creation, context creation, context activation, buffer
//! swap, proc-address resolution, display and drawable-size queries) and
//! the OpenGL implementation behind it (its version, its exported
//! functions, its display scaling).
//!
//! A [`Platform`] value stands for the toolkit-side state that those calls
//! read and update.  The glue is verified against this model; a native
//! driver performs the same operations through the real toolkit and keeps
//! the model in step with the plain values the toolkit returns.
//!
//! Window and context handles are arena indices into the platform's
//! tables: the model never destroys a window or a context, so an index,
//! once handed out, stays valid for the platform's lifetime.

use vstd::prelude::*;
use vstd::string::StringExecFns;

verus! {

/// Toolkit-side state of one created window.
pub struct WindowState {
    /// The title the window was requested with.
    pub title: String,
    /// Whether the window was created with the OpenGL capability flag.
    /// Only such a window can have an OpenGL context created against it.
    pub opengl: bool,
    /// Logical width, as requested by the window configuration.
    pub width: u32,
    /// Logical height, as requested by the window configuration.
    pub height: u32,
    /// Drawable width in pixels: the logical width times the display
    /// scale.  Under HiDPI scaling this exceeds the logical width.
    pub drawable_width: u32,
    /// Drawable height in pixels.
    pub drawable_height: u32,
    /// Index of the physical display the window occupies, or a negative
    /// value when the window is not associated with any display.
    pub display: i32,
    /// How many times the window's back buffer has been presented.
    pub swaps: u64,
}

/// Toolkit-side state of one native OpenGL context.
pub struct ContextState {
    /// The window the context was created against.  The toolkit refuses
    /// to make a context current with any other window.
    pub window_id: usize,
}

/// The windowing toolkit and OpenGL implementation as one explicit value.
pub struct Platform {
    /// How many physical displays are attached.
    pub displays: u32,
    /// Major version of the OpenGL implementation.
    pub gl_major: u32,
    /// Minor version of the OpenGL implementation.
    pub gl_minor: u32,
    /// Integer display scale factor; 1 on non-HiDPI displays.
    pub scale: u32,
    /// When set, the toolkit refuses to create further windows.
    pub out_of_resources: bool,
    /// Names of the functions the OpenGL implementation exports.
    pub procs: Vec<String>,
    /// Every window created so far; a window handle is an index here.
    pub windows: Vec<WindowState>,
    /// Every native context created so far; a context handle is an index
    /// here.
    pub contexts: Vec<ContextState>,
    /// The context current on the calling thread, if any.  The glue is
    /// single-threaded by design, so one register suffices.
    pub current: Option<usize>,
}

impl Platform {
    /// Whether the OpenGL implementation reports at least the given
    /// version.
    pub open spec fn version_at_least(self, major: u32, minor: u32) -> bool {
        self.gl_major > major || (self.gl_major == major && self.gl_minor >= minor)
    }

    /// Exec query for [`Platform::version_at_least`]: whether the OpenGL
    /// implementation reports at least the given version.
    pub fn gl_version_at_least(&self, major: u32, minor: u32) -> (r: bool)
        ensures
            r == self.version_at_least(major, minor),
    {
        self.gl_major > major || (self.gl_major == major && self.gl_minor >= minor)
    }

    /// Whether `window_id` is a window handle this platform has issued.
    pub open spec fn valid_window(self, window_id: usize) -> bool {
        window_id < self.windows.len()
    }

    /// Whether `context_id` is a context handle this platform has issued.
    pub open spec fn valid_context(self, context_id: usize) -> bool {
        context_id < self.contexts.len()
    }

    /// The address the OpenGL function loader reports for `name`,
    /// scanning the export table from `i` on: one more than the index of
    /// the first matching entry, or null (zero) when no entry matches.
    pub open spec fn proc_addr_from(self, name: Seq<char>, i: int) -> u64
        decreases self.procs.len() - i,
    {
        if i < 0 || i >= self.procs.len() {
            0u64
        } else if self.procs[i]@ == name {
            (i + 1) as u64
        } else {
            self.proc_addr_from(name, i + 1)
        }
    }

    /// The address the loader reports for `name`; null (zero) exactly
    /// when the implementation does not export the name.
    pub open spec fn proc_addr(self, name: Seq<char>) -> u64 {
        self.proc_addr_from(name, 0)
    }

    /// Whether the OpenGL implementation exports a function called
    /// `name`.
    pub open spec fn exports_proc(self, name: Seq<char>) -> bool {
        exists|i: int| 0 <= i < self.procs.len() && self.procs[i]@ == name
    }

    /// A fresh platform: no windows, no contexts, nothing current, no
    /// exported functions registered yet.
    pub fn new(displays: u32, gl_major: u32, gl_minor: u32, scale: u32) -> (p: Platform)
        requires
            scale >= 1,
        ensures
            p.displays == displays,
            p.gl_major == gl_major,
            p.gl_minor == gl_minor,
            p.scale == scale,
            !p.out_of_resources,
            p.procs@ == Seq::<String>::empty(),
            p.windows@ == Seq::<WindowState>::empty(),
            p.contexts@ == Seq::<ContextState>::empty(),
            p.current is None,
    {
        Platform {
            displays,
            gl_major,
            gl_minor,
            scale,
            out_of_resources: false,
            procs: Vec::new(),
            windows: Vec::new(),
            contexts: Vec::new(),
            current: None,
        }
    }

    /// Toolkit-side event: the platform runs out of (or regains) the
    /// resources needed to create windows.
    pub fn set_out_of_resources(&mut self, value: bool)
        ensures
            *final(self) == (Platform { out_of_resources: value, ..*old(self) }),
    {
        self.out_of_resources = value;
    }

    /// Registers a function name the OpenGL implementation exports, so
    /// that the loader can resolve it.
    pub fn register_proc(&mut self, name: String)
        ensures
            *final(self) == (Platform { procs: final(self).procs, ..*old(self) }),
            final(self).procs@ == old(self).procs@.push(name),
    {
        self.procs.push(name);
    }

    /// The message the toolkit gives when it cannot create a window:
    /// it names the resource shortage, or the drawable size that does
    /// not fit its pixel coordinates.
    pub open spec fn spec_window_failure_message(self) -> Seq<char> {
        if self.out_of_resources {
            "window creation failed: out of resources"@
        } else {
            "window creation failed: drawable size out of range"@
        }
    }

    /// Toolkit call: create a window from the given attributes.
    ///
    /// Fails when the toolkit is out of resources, or when the drawable
    /// size (logical size times display scale) does not fit the toolkit's
    /// pixel coordinates.  On success the new window occupies display 0
    /// when a display is attached, and its drawable size is the logical
    /// size times the display scale.
    pub fn create_window(&mut self, title: String, width: u32, height: u32, opengl: bool) -> (r:
        Result<usize, String>)
        ensures
            r is Ok <==> !old(self).out_of_resources && width * old(self).scale <= u32::MAX
                && height * old(self).scale <= u32::MAX,
            r is Err ==> *final(self) == *old(self),
            r matches Err(m) ==> m@ == old(self).spec_window_failure_message(),
            r matches Ok(id) ==> {
                &&& id == old(self).windows.len()
                &&& *final(self) == (Platform { windows: final(self).windows, ..*old(self) })
                &&& final(self).windows@ == old(self).windows@.push(
                    (WindowState {
                        title,
                        opengl,
                        width,
                        height,
                        drawable_width: (width * old(self).scale) as u32,
                        drawable_height: (height * old(self).scale) as u32,
                        display: if old(self).displays >= 1 { 0i32 } else { -1i32 },
                        swaps: 0,
                    }),
                )
            },
    {
        if self.out_of_resources {
            return Err(String::from_str("window creation failed: out of resources"));
        }
        proof {
            vstd::arithmetic::mul::lemma_mul_upper_bound(
                width as int,
                u32::MAX as int,
                self.scale as int,
                u32::MAX as int,
            );
            vstd::arithmetic::mul::lemma_mul_upper_bound(
                height as int,
                u32::MAX as int,
                self.scale as int,
                u32::MAX as int,
            );
        }
        let dw: u64 = (width as u64) * (self.scale as u64);
        let dh: u64 = (height as u64) * (self.scale as u64);
        if dw > u32::MAX as u64 || dh > u32::MAX as u64 {
            return Err(String::from_str("window creation failed: drawable size out of range"));
        }
        let id: usize = self.windows.len();
        let display: i32 = if self.displays >= 1 {
            0
        } else {
            -1
        };
        self.windows.push(
            WindowState {
                title,
                opengl,
                width,
                height,
                drawable_width: dw as u32,
                drawable_height: dh as u32,
                display,
                swaps: 0,
            },
        );
        Ok(id)
    }

    /// Toolkit call: create a native OpenGL context against a window.
    ///
    /// The toolkit refuses unless the window exists and was created with
    /// the OpenGL capability flag.  The context handle it returns stays
    /// bound to that window.
    pub fn create_context(&mut self, window_id: usize) -> (r: Result<usize, String>)
        ensures
            r is Ok <==> old(self).valid_window(window_id) && old(self).windows[
                window_id as int
            ].opengl,
            r is Err ==> *final(self) == *old(self),
            !old(self).valid_window(window_id) ==> (r matches Err(m) && m@
                == "context creation failed: no such window"@),
            old(self).valid_window(window_id) && r is Err ==> (r matches Err(m) && m@
                == "context creation failed: the window has no OpenGL surface"@),
            r matches Ok(id) ==> {
                &&& id == old(self).contexts.len()
                &&& *final(self) == (Platform { contexts: final(self).contexts, ..*old(self) })
                &&& final(self).contexts@ == old(self).contexts@.push(
                    (ContextState { window_id }),
                )
            },
    {
        if window_id >= self.windows.len() {
            return Err(String::from_str("context creation failed: no such window"));
        }
        if !self.windows[window_id].opengl {
            return Err(String::from_str("context creation failed: the window has no OpenGL surface"));
        }
        let id: usize = self.contexts.len();
        self.contexts.push(ContextState { window_id });
        Ok(id)
    }

    /// Toolkit call: bind a context as current on the calling thread.
    ///
    /// The toolkit refuses unless the context exists and `window_id` is
    /// the window the context was created against: a context may only be
    /// made current with its originating window.
    pub fn gl_make_current(&mut self, window_id: usize, context_id: usize) -> (r: Result<
        (),
        String,
    >)
        ensures
            r is Ok <==> old(self).valid_context(context_id) && old(self).contexts[
                context_id as int
            ].window_id == window_id,
            r is Err ==> *final(self) == *old(self),
            !old(self).valid_context(context_id) ==> (r matches Err(m) && m@
                == "cannot make current: no such context"@),
            old(self).valid_context(context_id) && r is Err ==> (r matches Err(m) && m@
                == "cannot make current: the context belongs to another window"@),
            r is Ok ==> *final(self) == (Platform { current: Some(context_id), ..*old(self) }),
    {
        if context_id >= self.contexts.len() {
            return Err(String::from_str("cannot make current: no such context"));
        }
        if self.contexts[context_id].window_id != window_id {
            return Err(String::from_str("cannot make current: the context belongs to another window"));
        }
        self.current = Some(context_id);
        Ok(())
    }

    /// The window table after one present of `window_id`'s back buffer:
    /// that window's swap count is one higher, everything else unchanged.
    pub open spec fn spec_after_swap(self, window_id: usize) -> Seq<WindowState> {
        self.windows@.update(
            window_id as int,
            (WindowState {
                swaps: (self.windows@[window_id as int].swaps + 1) as u64,
                ..self.windows@[window_id as int]
            }),
        )
    }

    /// Toolkit call: present the window's back buffer.
    pub fn gl_swap_window(&mut self, window_id: usize)
        requires
            old(self).valid_window(window_id),
            old(self).windows[window_id as int].swaps < u64::MAX,
        ensures
            *final(self) == (Platform { windows: final(self).windows, ..*old(self) }),
            final(self).windows@ == old(self).spec_after_swap(window_id),
    {
        self.windows[window_id].swaps = self.windows[window_id].swaps + 1;
    }

    /// Toolkit call: resolve an OpenGL function name to an address.
    ///
    /// Returns one more than the index of the first matching entry of the
    /// export table, or null (zero) when the implementation does not
    /// export the name.
    pub fn gl_get_proc_address(&self, symbol: &str) -> (r: u64)
        ensures
            r == self.proc_addr(symbol@),
            r == 0 <==> !self.exports_proc(symbol@),
    {
        let sym: String = symbol.to_owned();
        let n: usize = self.procs.len();
        let mut i: usize = 0;
        while i < n
            invariant
                i <= n,
                n == self.procs.len(),
                sym@ == symbol@,
                self.proc_addr(symbol@) == self.proc_addr_from(symbol@, i as int),
                forall|j: int| 0 <= j < i ==> self.procs[j]@ != symbol@,
            decreases n - i,
        {
            if self.procs[i] == sym {
                return (i as u64) + 1;
            }
            i = i + 1;
        }
        0
    }

    /// Toolkit call: the window's drawable size in pixels.
    pub fn drawable_size(&self, window_id: usize) -> (r: (u32, u32))
        requires
            self.valid_window(window_id),
        ensures
            r.0 == self.windows[window_id as int].drawable_width,
            r.1 == self.windows[window_id as int].drawable_height,
    {
        (self.windows[window_id].drawable_width, self.windows[window_id].drawable_height)
    }

    /// Toolkit call: which physical display the window occupies.
    ///
    /// The toolkit answers with the display index, or with its own error
    /// message when the window is not associated with any attached
    /// display.
    pub fn display_index(&self, window_id: usize) -> (r: Result<i32, String>)
        requires
            self.valid_window(window_id),
        ensures
            r matches Ok(d) ==> d == self.windows[window_id as int].display,
            r is Ok <==> 0 <= self.windows[window_id as int].display < self.displays,
            r matches Err(m) ==> m@ == "the window is not associated with any display"@,
    {
        let d: i32 = self.windows[window_id].display;
        if 0 <= d && (d as u32) < self.displays {
            Ok(d)
        } else {
            Err(String::from_str("the window is not associated with any display"))
        }
    }

    /// Toolkit-side event: the window is resized.  The drawable size
    /// follows the new logical size under the same display scale.
    pub fn resize_window(&mut self, window_id: usize, width: u32, height: u32)
        requires
            old(self).valid_window(window_id),
            width * old(self).scale <= u32::MAX,
            height * old(self).scale <= u32::MAX,
        ensures
            *final(self) == (Platform { windows: final(self).windows, ..*old(self) }),
            final(self).windows@ == old(self).windows@.update(
                window_id as int,
                (WindowState {
                    width,
                    height,
                    drawable_width: (width * old(self).scale) as u32,
                    drawable_height: (height * old(self).scale) as u32,
                    ..old(self).windows@[window_id as int]
                }),
            ),
    {
        proof {
            vstd::arithmetic::mul::lemma_mul_upper_bound(
                width as int,
                u32::MAX as int,
                self.scale as int,
                u32::MAX as int,
            );
            vstd::arithmetic::mul::lemma_mul_upper_bound(
                height as int,
                u32::MAX as int,
                self.scale as int,
                u32::MAX as int,
            );
        }
        let dw: u64 = (width as u64) * (self.scale as u64);
        let dh: u64 = (height as u64) * (self.scale as u64);
        self.windows[window_id].width = width;
        self.windows[window_id].height = height;
        self.windows[window_id].drawable_width = dw as u32;
        self.windows[window_id].drawable_height = dh as u32;
    }
}


/// A builder-style window configuration: the attributes a window is
/// requested with.  Consumed by construction, not retained.
pub struct WindowBuilder {
    /// The requested window title.
    pub title: String,
    /// The requested logical width.
    pub width: u32,
    /// The requested logical height.
    pub height: u32,
    /// Whether an OpenGL-capable surface is requested.  Construction of
    /// the context backend always requests one before building.
    pub opengl: bool,
}

impl WindowBuilder {
    /// A configuration for a window with the given title and logical
    /// size, without the OpenGL flag; `opengl` requests the flag.
    pub fn new(title: String, width: u32, height: u32) -> (b: WindowBuilder)
        ensures
            b == (WindowBuilder { title, width, height, opengl: false }),
    {
        WindowBuilder { title, width, height, opengl: false }
    }

    /// Request an OpenGL-capable surface.
    pub fn opengl(&mut self)
        ensures
            *final(self) == (WindowBuilder { opengl: true, ..*old(self) }),
    {
        self.opengl = true;
    }

    /// Toolkit call: create the window this configuration describes.
    pub fn build(&self, p: &mut Platform) -> (r: Result<usize, String>)
        ensures
            r is Ok <==> !old(p).out_of_resources && self.width * old(p).scale <= u32::MAX
                && self.height * old(p).scale <= u32::MAX,
            r is Err ==> *final(p) == *old(p),
            r matches Err(m) ==> m@ == old(p).spec_window_failure_message(),
            r matches Ok(id) ==> {
                &&& id == old(p).windows.len()
                &&& *final(p) == (Platform { windows: final(p).windows, ..*old(p) })
                &&& final(p).windows@ == old(p).windows@.push(
                    (WindowState {
                        title: self.title,
                        opengl: self.opengl,
                        width: self.width,
                        height: self.height,
                        drawable_width: (self.width * old(p).scale) as u32,
                        drawable_height: (self.height * old(p).scale) as u32,
                        display: if old(p).displays >= 1 { 0i32 } else { -1i32 },
                        swaps: 0,
                    }),
                )
            },
    {
        p.create_window(self.title.clone(), self.width, self.height, self.opengl)
    }
}

} // verus!
