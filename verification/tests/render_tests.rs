use render_core::bindings::{camera_binding_layout, DecodedImage, MyTexture};
use render_core::geometry::indices;
use render_core::pipeline::{PipelineRegistry, PipelineVariant};
use render_core::render::{AcquireOutcome, BindGroupId, ClearColor, RenderCommand, SurfaceError};
use render_core::state::{State, WindowSize};
use render_core::swapchain::{SurfaceFormat, SwapchainConfig};
use render_core::toggle::{InputEvent, KeyAction, ToggleState};

fn test_state() -> State {
    State {
        config: SwapchainConfig {
            format: SurfaceFormat { id: 1, srgb: true },
            width: 640,
            height: 480,
            present_mode: 0,
        },
        size: WindowSize { width: 640, height: 480 },
        toggle: ToggleState::VariantA,
        num_indices: 9,
        registry: PipelineRegistry {
            textured: PipelineVariant { id: ToggleState::VariantA, uses_vertex_buffer: true },
            procedural: PipelineVariant { id: ToggleState::VariantB, uses_vertex_buffer: false },
        },
        texture: MyTexture {
            image: DecodedImage { width: 1, height: 1, pixels: vec![0, 0, 0, 255] },
            bytes_per_row: 4,
            bind_group_layout: camera_binding_layout(),
        },
    }
}

fn expected_commands(variant: ToggleState) -> Vec<RenderCommand> {
    vec![
        RenderCommand::BeginRenderPass {
            clear: ClearColor {
                red_milli: 100,
                green_milli: 200,
                blue_milli: 300,
                alpha_milli: 1000,
            },
            store: true,
        },
        RenderCommand::SetPipeline { variant },
        RenderCommand::SetBindGroup { slot: 0, group: BindGroupId::DiffuseTexture },
        RenderCommand::SetBindGroup { slot: 1, group: BindGroupId::Camera },
        RenderCommand::SetVertexBuffer { slot: 0 },
        RenderCommand::SetIndexBufferU16,
        RenderCommand::DrawIndexed { index_count: 9, instance_count: 1 },
        RenderCommand::EndRenderPass,
        RenderCommand::Submit,
        RenderCommand::Present,
    ]
}

#[test]
fn successful_render_records_the_exact_frame() {
    let s = test_state();
    let cmds = s.render(AcquireOutcome::Acquired).unwrap();
    assert_eq!(cmds, expected_commands(ToggleState::VariantA));
}

#[test]
fn draw_covers_the_full_static_index_table_for_both_variants() {
    let mut s = test_state();
    let table_len = indices().len() as u32;
    for _ in 0..2 {
        let cmds = s.render(AcquireOutcome::Acquired).unwrap();
        let draws: Vec<&RenderCommand> = cmds
            .iter()
            .filter(|c| matches!(c, RenderCommand::DrawIndexed { .. }))
            .collect();
        assert_eq!(draws.len(), 1);
        assert_eq!(
            *draws[0],
            RenderCommand::DrawIndexed { index_count: table_len, instance_count: 1 }
        );
        s.input(&InputEvent::ToggleKey { action: KeyAction::Release, repeat: false });
    }
}

#[test]
fn toggled_state_selects_the_procedural_variant() {
    let mut s = test_state();
    s.input(&InputEvent::ToggleKey { action: KeyAction::Release, repeat: false });
    let cmds = s.render(AcquireOutcome::Acquired).unwrap();
    assert_eq!(cmds, expected_commands(ToggleState::VariantB));
}

#[test]
fn submit_precedes_present() {
    let s = test_state();
    let cmds = s.render(AcquireOutcome::Acquired).unwrap();
    let submit_at = cmds.iter().position(|c| matches!(c, RenderCommand::Submit)).unwrap();
    let present_at = cmds.iter().position(|c| matches!(c, RenderCommand::Present)).unwrap();
    assert!(submit_at < present_at);
}

#[test]
fn lost_surface_scenario_recovers_after_reconfigure() {
    let mut s = test_state();

    // The surface reports "Lost": a recoverable error, nothing recorded or
    // submitted.
    let r = s.render(AcquireOutcome::Lost);
    let e = r.unwrap_err();
    assert_eq!(e, SurfaceError::Lost);
    assert!(e.is_recoverable());

    // The caller reconfigures the swapchain and skips the frame; the next
    // render succeeds.
    let action = s.resize(640, 480);
    assert!(matches!(action, render_core::swapchain::ResizeAction::Reconfigure(_)));
    let r2 = s.render(AcquireOutcome::Acquired);
    assert!(r2.is_ok());
}

#[test]
fn outdated_and_timeout_are_recoverable() {
    let s = test_state();
    let e = s.render(AcquireOutcome::Outdated).unwrap_err();
    assert_eq!(e, SurfaceError::Outdated);
    assert!(e.is_recoverable());
    let e = s.render(AcquireOutcome::Timeout).unwrap_err();
    assert_eq!(e, SurfaceError::Timeout);
    assert!(e.is_recoverable());
}

#[test]
fn out_of_memory_is_fatal() {
    let s = test_state();
    let e = s.render(AcquireOutcome::OutOfMemory).unwrap_err();
    assert_eq!(e, SurfaceError::OutOfMemory);
    assert!(!e.is_recoverable());
}
