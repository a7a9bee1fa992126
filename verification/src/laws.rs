//! Laws that tie the glue's operations together, stated over the same
//! spec functions the operations' contracts use.

use vstd::prelude::*;

use crate::backend::SDL2Backend;
use crate::facade::{spec_built_window, SDL2Facade};
use crate::platform::{Platform, WindowBuilder};

verus! {

/// The dimension query is idempotent under no external change: its
/// result depends only on the backend and the platform's window table,
/// so two queries with no intervening window event (in particular no
/// resize) return identical values.
pub proof fn lemma_framebuffer_dimensions_stable(b: SDL2Backend, p1: Platform, p2: Platform)
    requires
        p1.windows@ == p2.windows@,
    ensures
        b.spec_framebuffer_dimensions(p1) == b.spec_framebuffer_dimensions(p2),
{
}

/// Presenting a back buffer does not change any window's drawable
/// size: a swap between two dimension queries leaves their results
/// identical, so only events such as a resize can move the dimensions.
pub proof fn lemma_swap_preserves_dimensions(p: Platform, swapped: usize, wid: usize)
    requires
        swapped < p.windows.len(),
        wid < p.windows.len(),
    ensures
        p.spec_after_swap(swapped)[wid as int].drawable_width == p.windows@[
            wid as int
        ].drawable_width,
        p.spec_after_swap(swapped)[wid as int].drawable_height == p.windows@[
            wid as int
        ].drawable_height,
{
}

/// After `make_current` succeeds, `is_current` immediately reports
/// true on the same thread: making current leaves the thread's
/// current-context register holding exactly this backend's context,
/// which is what the currency query reads.
pub proof fn lemma_make_current_then_is_current(b: SDL2Backend, p: Platform)
    ensures
        b.spec_is_current((Platform { current: Some(b.context_id()), ..p })),
{
}

/// On a platform with at least one display attached, a freshly
/// constructed window occupies display 0, so the display-index query
/// on it is owed a non-negative answer.
pub proof fn lemma_fresh_window_display_nonnegative(b: WindowBuilder, p: Platform)
    requires
        p.displays >= 1,
    ensures
        spec_built_window(b, p).display == 0,
        0 <= spec_built_window(b, p).display < p.displays,
{
}

/// A facade the build returns is ready to use: what the build
/// guarantees of it is exactly what beginning a frame requires, and,
/// the fresh window never having been presented, what finishing that
/// frame requires as well.  With the build's two-outcome contract this
/// closes the totality claim: every build either yields a facade whose
/// draw-and-finish path runs without panicking, or reports an error.
pub proof fn lemma_built_facade_ready(f: SDL2Facade, p: Platform)
    requires
        f.wf(),
        f.backend.valid_on(p),
        f.backend.window_on(p).swaps == 0,
    ensures
        f.context.backend.valid_on(p),
        f.context.backend.window_on(p).swaps < u64::MAX,
{
}

} // verus!
