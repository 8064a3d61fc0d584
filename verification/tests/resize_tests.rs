use render_core::bindings::{camera_binding_layout, DecodedImage, MyTexture};
use render_core::pipeline::{PipelineRegistry, PipelineVariant};
use render_core::state::{State, WindowSize};
use render_core::swapchain::{ResizeAction, SurfaceFormat, SwapchainConfig};
use render_core::toggle::ToggleState;

fn test_state() -> State {
    State {
        config: SwapchainConfig {
            format: SurfaceFormat { id: 5, srgb: true },
            width: 640,
            height: 480,
            present_mode: 2,
        },
        size: WindowSize { width: 640, height: 480 },
        toggle: ToggleState::VariantA,
        num_indices: 9,
        registry: PipelineRegistry {
            textured: PipelineVariant { id: ToggleState::VariantA, uses_vertex_buffer: true },
            procedural: PipelineVariant { id: ToggleState::VariantB, uses_vertex_buffer: false },
        },
        texture: MyTexture {
            image: DecodedImage { width: 1, height: 1, pixels: vec![0, 0, 0, 255] },
            bytes_per_row: 4,
            bind_group_layout: camera_binding_layout(),
        },
    }
}

fn reconfigures(a: &ResizeAction) -> bool {
    matches!(a, ResizeAction::Reconfigure(_))
}

#[test]
fn valid_resize_updates_exactly_and_reconfigures_once() {
    let mut s = test_state();
    let action = s.resize(800, 600);
    assert_eq!(s.size, WindowSize { width: 800, height: 600 });
    assert_eq!(s.config.width, 800);
    assert_eq!(s.config.height, 600);
    // Format and present mode survive every resize.
    assert_eq!(s.config.format, SurfaceFormat { id: 5, srgb: true });
    assert_eq!(s.config.present_mode, 2);
    assert_eq!(action, ResizeAction::Reconfigure(s.config));
}

#[test]
fn zero_width_resize_is_a_full_noop() {
    let mut s = test_state();
    let before = s.config;
    let action = s.resize(0, 600);
    assert_eq!(s.config, before);
    assert_eq!(s.size, WindowSize { width: 640, height: 480 });
    assert_eq!(action, ResizeAction::Ignore);
}

#[test]
fn zero_height_resize_is_a_full_noop() {
    let mut s = test_state();
    let before = s.config;
    let action = s.resize(800, 0);
    assert_eq!(s.config, before);
    assert_eq!(s.size, WindowSize { width: 640, height: 480 });
    assert_eq!(action, ResizeAction::Ignore);
}

#[test]
fn zero_both_resize_is_a_full_noop() {
    let mut s = test_state();
    let before = s.config;
    let action = s.resize(0, 0);
    assert_eq!(s.config, before);
    assert_eq!(action, ResizeAction::Ignore);
}

#[test]
fn resize_then_zero_resize_scenario() {
    let mut s = test_state();
    let mut reconfigure_count: u32 = 0;

    let a1 = s.resize(800, 600);
    if reconfigures(&a1) {
        reconfigure_count += 1;
    }
    let a2 = s.resize(0, 600);
    if reconfigures(&a2) {
        reconfigure_count += 1;
    }

    assert_eq!(s.size, WindowSize { width: 800, height: 600 });
    assert_eq!(s.config.width, 800);
    assert_eq!(s.config.height, 600);
    assert_eq!(reconfigure_count, 1);
}

#[test]
fn resize_to_largest_size_is_exact() {
    let mut s = test_state();
    let action = s.resize(u32::MAX, u32::MAX);
    assert_eq!(s.size, WindowSize { width: u32::MAX, height: u32::MAX });
    assert!(reconfigures(&action));
}
