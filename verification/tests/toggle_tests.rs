use render_core::bindings::{camera_binding_layout, DecodedImage, MyTexture};
use render_core::pipeline::{PipelineRegistry, PipelineVariant};
use render_core::state::{State, WindowSize};
use render_core::swapchain::{SurfaceFormat, SwapchainConfig};
use render_core::toggle::{toggle_step, InputEvent, KeyAction, ToggleState};

fn press() -> InputEvent {
    InputEvent::ToggleKey { action: KeyAction::Press, repeat: false }
}

fn release() -> InputEvent {
    InputEvent::ToggleKey { action: KeyAction::Release, repeat: false }
}

fn repeat() -> InputEvent {
    InputEvent::ToggleKey { action: KeyAction::Press, repeat: true }
}

fn test_state() -> State {
    State {
        config: SwapchainConfig {
            format: SurfaceFormat { id: 1, srgb: true },
            width: 640,
            height: 480,
            present_mode: 0,
        },
        size: WindowSize { width: 640, height: 480 },
        toggle: ToggleState::VariantA,
        num_indices: 9,
        registry: PipelineRegistry {
            textured: PipelineVariant { id: ToggleState::VariantA, uses_vertex_buffer: true },
            procedural: PipelineVariant { id: ToggleState::VariantB, uses_vertex_buffer: false },
        },
        texture: MyTexture {
            image: DecodedImage { width: 1, height: 1, pixels: vec![0, 0, 0, 255] },
            bytes_per_row: 4,
            bind_group_layout: camera_binding_layout(),
        },
    }
}

#[test]
fn release_pair_returns_to_original() {
    for start in [ToggleState::VariantA, ToggleState::VariantB] {
        let (once, h1) = toggle_step(start, &release());
        assert!(h1);
        assert_ne!(once, start);
        let (twice, h2) = toggle_step(once, &release());
        assert!(h2);
        assert_eq!(twice, start);
    }
}

#[test]
fn odd_release_count_differs_from_initial() {
    let start = ToggleState::VariantA;
    let mut s = start;
    for n in 1..=7u32 {
        let (next, _) = toggle_step(s, &release());
        s = next;
        if n % 2 == 1 {
            assert_ne!(s, start);
        } else {
            assert_eq!(s, start);
        }
    }
}

#[test]
fn press_and_repeat_never_flip() {
    for start in [ToggleState::VariantA, ToggleState::VariantB] {
        let (after_press, handled_press) = toggle_step(start, &press());
        assert!(handled_press);
        assert_eq!(after_press, start);
        let (after_repeat, handled_repeat) = toggle_step(start, &repeat());
        assert!(handled_repeat);
        assert_eq!(after_repeat, start);
    }
}

#[test]
fn other_events_are_not_handled_and_do_not_flip() {
    for start in [ToggleState::VariantA, ToggleState::VariantB] {
        let (next, handled) = toggle_step(start, &InputEvent::Other);
        assert!(!handled);
        assert_eq!(next, start);
    }
}

#[test]
fn space_toggle_scenario() {
    let mut s = test_state();
    assert_eq!(s.toggle, ToggleState::VariantA);

    let handled = s.input(&press());
    assert!(handled);
    assert_eq!(s.toggle, ToggleState::VariantA);

    let handled = s.input(&release());
    assert!(handled);
    assert_eq!(s.toggle, ToggleState::VariantB);

    let handled = s.input(&release());
    assert!(handled);
    assert_eq!(s.toggle, ToggleState::VariantA);
}

#[test]
fn input_leaves_rest_of_state_alone() {
    let mut s = test_state();
    let before_config = s.config;
    let before_size = s.size;
    s.input(&release());
    assert_eq!(s.config, before_config);
    assert_eq!(s.size, before_size);
    assert_eq!(s.num_indices, 9);
}
