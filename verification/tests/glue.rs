//! Scenario tests for the glue, run against the platform model.

use glium_sdl2_glue::backend::SDL2Backend;
use glium_sdl2_glue::errors::GliumGlueError;
use glium_sdl2_glue::facade::DisplayBuild;
use glium_sdl2_glue::platform::{Platform, WindowBuilder};
use glium_sdl2_glue::render::{
    DebugCallbackBehavior, IncompatibleOpenGl, RenderContext, SwapBuffersError,
};
use std::rc::Rc;

fn builder_800_600() -> WindowBuilder {
    WindowBuilder::new("demo".to_string(), 800, 600)
}

#[test]
fn build_succeeds_and_one_finish_swaps_once() {
    let mut p = Platform::new(1, 3, 3, 1);
    let mut b = builder_800_600();
    let facade = b.build_glium(&mut p).unwrap();
    let frame = facade.draw(&p);
    assert_eq!(frame.width, 800);
    assert_eq!(frame.height, 600);
    assert_eq!(p.windows[0].swaps, 0);
    assert!(frame.finish(&mut p).is_ok());
    assert_eq!(p.windows[0].swaps, 1);
}

#[test]
fn hidpi_dimensions_are_integer_multiples() {
    let mut p = Platform::new(1, 3, 0, 2);
    let mut b = builder_800_600();
    let facade = b.build_glium(&mut p).unwrap();
    assert_eq!(p.windows[0].width, 800);
    assert_eq!(p.windows[0].height, 600);
    let frame = facade.draw(&p);
    assert_eq!(frame.width, 1600);
    assert_eq!(frame.height, 1200);
}

#[test]
fn incompatible_opengl_is_reported_not_a_facade() {
    let mut p = Platform::new(1, 2, 1, 1);
    let mut b = builder_800_600();
    match b.build_glium(&mut p) {
        Ok(_) => panic!("a 2.1 implementation must not negotiate"),
        Err(GliumGlueError::ContextCreationError(IncompatibleOpenGl(msg))) => {
            assert_eq!(
                msg,
                "OpenGL implementation doesn't support framebuffers\n\
                 OpenGL implementation doesn't support blitting framebuffers"
            );
        }
        Err(_) => panic!("expected the incompatible-context error"),
    }
}

#[test]
fn ancient_opengl_reports_every_missing_capability() {
    let mut p = Platform::new(1, 1, 4, 1);
    let mut b = builder_800_600();
    match b.build_glium(&mut p) {
        Err(GliumGlueError::ContextCreationError(IncompatibleOpenGl(msg))) => {
            assert_eq!(
                msg,
                "OpenGL implementation doesn't support buffer objects\n\
                 OpenGL implementation doesn't support vertex/fragment shaders\n\
                 OpenGL implementation doesn't support framebuffers\n\
                 OpenGL implementation doesn't support blitting framebuffers"
            );
        }
        _ => panic!("expected the incompatible-context error"),
    }
}

#[test]
fn window_creation_failure_is_a_typed_error() {
    let mut p = Platform::new(1, 3, 0, 1);
    p.set_out_of_resources(true);
    let mut b = builder_800_600();
    match b.build_glium(&mut p) {
        Err(GliumGlueError::ResourceCreationError(msg)) => {
            assert_eq!(msg, "window creation failed: out of resources");
        }
        _ => panic!("expected the resource-creation error"),
    }
    assert!(p.windows.is_empty());
}

#[test]
fn oversized_drawable_is_a_typed_error() {
    let mut p = Platform::new(1, 3, 0, 2);
    let mut b = WindowBuilder::new("huge".to_string(), u32::MAX, 600);
    match b.build_glium(&mut p) {
        Err(GliumGlueError::ResourceCreationError(msg)) => {
            assert_eq!(msg, "window creation failed: drawable size out of range");
        }
        _ => panic!("expected the resource-creation error"),
    }
}

#[test]
fn dimensions_are_idempotent_without_resize() {
    let mut p = Platform::new(1, 3, 0, 1);
    let mut b = builder_800_600();
    let facade = b.build_glium(&mut p).unwrap();
    let first = facade.backend.get_framebuffer_dimensions(&p);
    let second = facade.backend.get_framebuffer_dimensions(&p);
    assert_eq!(first, (800, 600));
    assert_eq!(first, second);
    facade.backend.swap_buffers(&mut p).unwrap();
    assert_eq!(facade.backend.get_framebuffer_dimensions(&p), first);
    p.resize_window(0, 1024, 768);
    assert_eq!(facade.backend.get_framebuffer_dimensions(&p), (1024, 768));
}

#[test]
fn make_current_then_is_current() {
    let mut p = Platform::new(1, 3, 0, 1);
    let mut b = builder_800_600();
    let backend = SDL2Backend::new(&mut b, &mut p).unwrap();
    assert!(!backend.is_current(&p));
    backend.make_current(&mut p);
    assert!(backend.is_current(&p));
}

#[test]
fn proc_address_of_unknown_name_is_null() {
    let mut p = Platform::new(1, 3, 0, 1);
    p.register_proc("glClear".to_string());
    let mut b = builder_800_600();
    let backend = SDL2Backend::new(&mut b, &mut p).unwrap();
    backend.make_current(&mut p);
    assert_eq!(backend.get_proc_address(&p, "glClear"), 1);
    assert_eq!(
        backend.get_proc_address(&p, "glDefinitelyNotARealEntryPoint"),
        0
    );
}

#[test]
fn display_index_is_nonnegative_with_a_display_attached() {
    let mut p = Platform::new(1, 3, 0, 1);
    let mut b = builder_800_600();
    let facade = b.build_glium(&mut p).unwrap();
    assert_eq!(facade.display_index(&p), Ok(0));
}

#[test]
fn display_index_propagates_the_toolkit_message() {
    let mut p = Platform::new(0, 3, 0, 1);
    let mut b = builder_800_600();
    let facade = b.build_glium(&mut p).unwrap();
    assert_eq!(
        facade.display_index(&p),
        Err("the window is not associated with any display".to_string())
    );
}

#[test]
fn second_finish_reports_already_swapped() {
    let mut p = Platform::new(1, 3, 0, 1);
    let mut b = builder_800_600();
    let facade = b.build_glium(&mut p).unwrap();
    let mut frame = facade.draw(&p);
    assert!(frame.set_finish(&mut p).is_ok());
    assert!(matches!(
        frame.set_finish(&mut p),
        Err(SwapBuffersError::AlreadySwapped)
    ));
    assert_eq!(p.windows[0].swaps, 1);
}

#[test]
fn negotiation_makes_the_context_current_even_on_failure() {
    let mut p = Platform::new(1, 2, 0, 1);
    let mut b = builder_800_600();
    let backend = Rc::new(SDL2Backend::new(&mut b, &mut p).unwrap());
    assert!(!backend.is_current(&p));
    let r = RenderContext::new(
        Rc::clone(&backend),
        true,
        DebugCallbackBehavior::Ignore,
        &mut p,
    );
    assert!(r.is_err());
    assert!(backend.is_current(&p));
}

#[test]
fn construction_requests_the_opengl_flag() {
    let mut p = Platform::new(1, 3, 0, 1);
    let mut b = builder_800_600();
    assert!(!b.opengl);
    let _ = b.build_glium(&mut p).unwrap();
    assert!(b.opengl);
    assert!(p.windows[0].opengl);
}

#[test]
fn a_window_without_the_opengl_flag_gets_no_context() {
    let mut p = Platform::new(1, 3, 0, 1);
    let b = builder_800_600();
    let wid = b.build(&mut p).unwrap();
    assert!(!p.windows[wid].opengl);
    assert!(p.create_context(wid).is_err());
}

#[test]
fn the_facade_exposes_the_negotiated_context() {
    let mut p = Platform::new(1, 3, 1, 1);
    let mut b = builder_800_600();
    let facade = b.build_glium(&mut p).unwrap();
    let context = facade.get_context();
    assert_eq!(context.gl_major, 3);
    assert_eq!(context.gl_minor, 1);
    assert!(context.check_current_context);
    assert_eq!(
        context.debug_behavior,
        DebugCallbackBehavior::DebugMessageOnError
    );
}

#[test]
fn error_messages_match_their_kind() {
    let incompatible = GliumGlueError::from(IncompatibleOpenGl("too old".to_string()));
    assert!(matches!(
        &incompatible,
        GliumGlueError::ContextCreationError(IncompatibleOpenGl(m)) if m == "too old"
    ));
    assert_eq!(incompatible.message(), "Could not create OpenGL Context.");
    let resource = GliumGlueError::ResourceCreationError("no window".to_string());
    assert_eq!(resource.message(), "no window");
}

#[test]
fn the_debug_policy_is_configurable() {
    let mut p = Platform::new(1, 4, 6, 1);
    let mut b = builder_800_600();
    let facade = b
        .build_glium_with_debug(&mut p, DebugCallbackBehavior::PrintAll)
        .unwrap();
    assert_eq!(facade.context.debug_behavior, DebugCallbackBehavior::PrintAll);
    assert_eq!(facade.context.gl_major, 4);
}

#[test]
fn handle_validity_is_checkable() {
    let mut p = Platform::new(1, 3, 0, 1);
    let mut b = builder_800_600();
    let backend = SDL2Backend::new(&mut b, &mut p).unwrap();
    assert!(backend.is_valid_on(&p));
    let other = Platform::new(1, 3, 0, 1);
    assert!(!backend.is_valid_on(&other));
}
