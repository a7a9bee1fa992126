//! The construction error type of the glue.
//!
//! Two failures are modeled: the recoverable "incompatible rendering
//! context" raised when capability negotiation finds the OpenGL
//! implementation below the abstraction's minimum, and the typed
//! platform-resource failure raised when the toolkit cannot create the
//! window or the native context.

use vstd::prelude::*;
use vstd::string::StringExecFns;

use crate::render::IncompatibleOpenGl;

verus! {

/// Why a facade could not be built.
#[derive(Debug)]
pub enum GliumGlueError {
    /// Capability negotiation failed: the platform's OpenGL
    /// implementation does not satisfy the minimum feature set the
    /// rendering abstraction requires.  The one recoverable, explicitly
    /// modeled failure.
    ContextCreationError(IncompatibleOpenGl),
    /// The toolkit failed to create the window or the native OpenGL
    /// context; carries the toolkit's own message.
    ResourceCreationError(String),
}

impl GliumGlueError {
    /// A short description of the failure: a fixed phrase for the
    /// negotiation failure, the toolkit's own message for a resource
    /// failure.
    pub fn message(&self) -> (r: String)
        ensures
            self is ContextCreationError ==> r@ == "Could not create OpenGL Context."@,
            self matches GliumGlueError::ResourceCreationError(m) ==> r@ == m@,
    {
        match self {
            GliumGlueError::ContextCreationError(_) => String::from_str(
                "Could not create OpenGL Context.",
            ),
            GliumGlueError::ResourceCreationError(m) => m.clone(),
        }
    }
}

impl core::convert::From<IncompatibleOpenGl> for GliumGlueError {
    /// An incompatibility reported by negotiation converts into the
    /// construction error that wraps it.
    fn from(e: IncompatibleOpenGl) -> (r: GliumGlueError) {
        GliumGlueError::ContextCreationError(e)
    }
}

impl vstd::std_specs::convert::FromSpecImpl<IncompatibleOpenGl> for GliumGlueError {
    open spec fn obeys_from_spec() -> bool {
        true
    }

    open spec fn from_spec(e: IncompatibleOpenGl) -> GliumGlueError {
        GliumGlueError::ContextCreationError(e)
    }
}

} // verus!
