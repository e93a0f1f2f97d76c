use std::sync::Arc;

use papercut::camera::Camera;
use papercut::context::{Bananas, SurfaceError, SurfaceSize, TextureFormat};
use papercut::frame_loop::{App, LoopAction, LoopEvent};
use papercut::renderer::{
    record_frame, BlendComponent, BlendState, Color, DrawKind, FramePhase, FrameScript,
    RenderCommand, Renderer,
};
use papercut::texture::Texture;
use papercut::units::MICRO;
use papercut::vertex::{geometry_vertex_desc, shape_mesh, sprite_mesh, Vertex};

fn test_blend() -> BlendState {
    BlendState { color: BlendComponent::Replace, alpha: BlendComponent::Replace }
}

fn test_clear() -> Color {
    Color { r: MICRO / 10, g: MICRO / 5, b: 3 * MICRO / 10, a: MICRO }
}

fn test_app() -> App {
    let formats = vec![TextureFormat::Bgra8UnormSrgb];
    let bananas = Bananas::new(1024, 576, &formats).unwrap();
    let camera = Camera::new(1024, 576);
    let renderer = Renderer::new(bananas.config.format, test_clear(), test_blend());
    App::new(bananas, camera, renderer)
}

#[test]
fn vertex_layouts_have_packed_offsets() {
    let layout = Vertex::desc();
    assert_eq!(layout.array_stride, 32);
    let offsets: Vec<u32> = layout.attributes.iter().map(|a| a.offset).collect();
    assert_eq!(offsets, vec![0, 12, 20]);
    let geometry_layout = geometry_vertex_desc();
    assert_eq!(geometry_layout.array_stride, 28);
    let offsets: Vec<u32> = geometry_layout.attributes.iter().map(|a| a.offset).collect();
    assert_eq!(offsets, vec![0, 12]);
}

#[test]
fn static_meshes_have_expected_index_counts() {
    let shape = shape_mesh();
    assert_eq!(shape.vertices.len(), 5);
    assert_eq!(shape.indices, vec![0, 1, 4, 1, 2, 4, 2, 3, 4, 0]);
    let sprite = sprite_mesh();
    assert_eq!(sprite.vertices.len(), 4);
    assert_eq!(sprite.indices, vec![0, 1, 2, 2, 1, 3]);
}

#[test]
fn renderer_builds_geometry_with_fill_before_stroke() {
    let renderer = Renderer::new(TextureFormat::Bgra8UnormSrgb, test_clear(), test_blend());
    assert_eq!(renderer.geometry.fill_range.start, 0);
    assert_eq!(renderer.geometry.fill_range.end, 6);
    assert_eq!(renderer.geometry.stroke_range.start, 6);
    assert_eq!(renderer.geometry.stroke_range.end, 30);
    assert_eq!(renderer.geometry.vertices.len(), 12);
    assert!(renderer.depth_size.is_none());
}

#[test]
fn one_frame_issues_four_draws_in_fixed_order() {
    let app = test_app();
    let white = Arc::new(Texture::from_bytes(1, 1, &vec![255, 255, 255, 255]).unwrap());
    let shape_bind_group = app.renderer.create_sprite_bind_group(Arc::clone(&white));
    let sprite_bind_group = app.renderer.create_sprite_bind_group(white);

    let mut frame = FrameScript::new();
    frame.acquire_succeeded();
    record_frame(
        &app.renderer,
        &app.camera,
        &app.bananas,
        &mut frame,
        &shape_bind_group,
        &sprite_bind_group,
    );
    assert_eq!(frame.phase, FramePhase::Presented);
    assert_eq!(frame.commands.len(), 9);

    assert!(matches!(frame.commands[0], RenderCommand::CopyUniform(_)));
    assert!(matches!(frame.commands[1], RenderCommand::BeginPass(_)));
    let draws: Vec<_> = frame
        .commands
        .iter()
        .filter_map(|c| match c {
            RenderCommand::Draw(d) => Some(*d),
            _ => None,
        })
        .collect();
    assert_eq!(draws.len(), 4);
    assert_eq!(draws[0].kind, DrawKind::FlatShape);
    assert_eq!(draws[1].kind, DrawKind::Sprite);
    assert_eq!(draws[2].kind, DrawKind::TessellatedFill);
    assert_eq!(draws[3].kind, DrawKind::TessellatedStroke);
    // index counts match the precomputed mesh index lengths
    assert_eq!(draws[0].indices.end - draws[0].indices.start, 10);
    assert_eq!(draws[1].indices.end - draws[1].indices.start, 6);
    assert_eq!(draws[2].indices.end - draws[2].indices.start, 6);
    assert_eq!(draws[3].indices.end - draws[3].indices.start, 24);
    assert!(matches!(frame.commands[6], RenderCommand::EndPass));
    assert!(matches!(frame.commands[7], RenderCommand::Submit));
    assert!(matches!(frame.commands[8], RenderCommand::Present));
}

#[test]
fn uniform_copy_precedes_every_uniform_draw() {
    let app = test_app();
    let white = Arc::new(Texture::from_bytes(1, 1, &vec![255, 255, 255, 255]).unwrap());
    let binding = app.renderer.create_sprite_bind_group(white);
    let mut frame = FrameScript::new();
    frame.acquire_succeeded();
    record_frame(&app.renderer, &app.camera, &app.bananas, &mut frame, &binding, &binding);
    let copy_at = frame
        .commands
        .iter()
        .position(|c| matches!(c, RenderCommand::CopyUniform(_)))
        .unwrap();
    for (i, c) in frame.commands.iter().enumerate() {
        if let RenderCommand::Draw(d) = c {
            if d.uses_uniform {
                assert!(copy_at < i);
            }
        }
    }
}

#[test]
fn begin_pass_clears_to_the_configured_color() {
    let app = test_app();
    let white = Arc::new(Texture::from_bytes(1, 1, &vec![255, 255, 255, 255]).unwrap());
    let binding = app.renderer.create_sprite_bind_group(white);
    let mut frame = FrameScript::new();
    frame.acquire_succeeded();
    record_frame(&app.renderer, &app.camera, &app.bananas, &mut frame, &binding, &binding);
    match frame.commands[1] {
        RenderCommand::BeginPass(ops) => {
            assert_eq!(ops.clear_color, test_clear());
            assert_eq!(ops.depth_clear_micro, 0);
        },
        _ => panic!("expected the pass to open right after the uniform copy"),
    }
}

#[test]
fn resize_event_updates_context_camera_and_renderer() {
    let mut app = test_app();
    let action = app.handle_event(LoopEvent::Resized(1920, 1080));
    assert_eq!(action, LoopAction::Continue);
    assert_eq!(app.bananas.size, SurfaceSize::new(1920, 1080));
    assert_eq!((app.camera.width, app.camera.height), (1920, 1080));
    assert_eq!(app.renderer.depth_size, Some(SurfaceSize::new(1920, 1080)));
}

#[test]
fn zero_area_resize_event_changes_nothing() {
    let mut app = test_app();
    let before_size = app.bananas.size;
    let action = app.handle_event(LoopEvent::Resized(0, 1080));
    assert_eq!(action, LoopAction::Continue);
    assert_eq!(app.bananas.size, before_size);
    assert_eq!((app.camera.width, app.camera.height), (1024, 576));
}

#[test]
fn close_and_escape_exit_the_loop() {
    let mut app = test_app();
    assert_eq!(app.handle_event(LoopEvent::CloseRequested), LoopAction::Exit);
    assert_eq!(app.handle_event(LoopEvent::EscapePressed), LoopAction::Exit);
    assert_eq!(app.handle_event(LoopEvent::RedrawRequested), LoopAction::Redraw);
    assert_eq!(app.handle_event(LoopEvent::MainEventsCleared), LoopAction::RequestRedraw);
    assert_eq!(app.handle_event(LoopEvent::Other), LoopAction::Continue);
}

#[test]
fn overlay_toggle_flips_only_the_overlay_flag() {
    let mut app = test_app();
    assert!(!app.overlay_visible);
    let bananas_before = app.bananas;
    assert_eq!(app.handle_event(LoopEvent::OverlayTogglePressed), LoopAction::Continue);
    assert!(app.overlay_visible);
    assert_eq!(app.handle_event(LoopEvent::OverlayTogglePressed), LoopAction::Continue);
    assert!(!app.overlay_visible);
    assert_eq!(app.bananas, bananas_before);
}

#[test]
fn two_lost_frames_reconfigure_idempotently() {
    let mut app = test_app();
    let action = app.handle_frame_outcome(Err(SurfaceError::Lost));
    assert_eq!(action, LoopAction::Continue);
    let bananas_after_first = app.bananas;
    let camera_after_first = app.camera;
    let depth_after_first = app.renderer.depth_size;
    let action = app.handle_frame_outcome(Err(SurfaceError::Lost));
    assert_eq!(action, LoopAction::Continue);
    assert_eq!(app.bananas, bananas_after_first);
    assert_eq!(app.camera, camera_after_first);
    assert_eq!(app.renderer.depth_size, depth_after_first);
}

#[test]
fn fatal_and_transient_outcomes() {
    let mut app = test_app();
    assert_eq!(app.handle_frame_outcome(Ok(())), LoopAction::Continue);
    assert_eq!(app.handle_frame_outcome(Err(SurfaceError::Timeout)), LoopAction::SkipFrame);
    assert_eq!(app.handle_frame_outcome(Err(SurfaceError::OutOfMemory)), LoopAction::Exit);
}

#[test]
fn bind_groups_share_one_texture() {
    let renderer = Renderer::new(TextureFormat::Rgba8Unorm, test_clear(), test_blend());
    let texture = Arc::new(Texture::from_bytes(1, 1, &vec![9, 9, 9, 255]).unwrap());
    let first = renderer.create_sprite_bind_group(Arc::clone(&texture));
    let second = renderer.create_sprite_bind_group(Arc::clone(&texture));
    assert!(Arc::ptr_eq(&first.texture, &second.texture));
    assert_eq!(first.texture.texel_at(0, 0).r, 9);
}
