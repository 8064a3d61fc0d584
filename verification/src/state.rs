//! The core state of the rasterizer: the negotiated swapchain configuration,
//! the toggle selecting the active pipeline variant, the static geometry
//! counts, the compiled variants and the texture data — and the per-tick
//! entry points the event-loop driver calls: `resize`, `input`, `update` and
//! `render`.

use vstd::prelude::*;

use crate::bindings::{camera_binding_layout, rgba_decode_of, spec_camera_layout,
    spec_texture_layout, texture_binding_layout, BindingSetLayout, MyTexture, TextureError};
use crate::geometry::spec_indices;
use crate::pipeline::{spec_compatible, spec_sets, PipelineRegistry, ShaderInterface};
use crate::render::{frame_commands, spec_acquire_error, spec_frame_commands, AcquireOutcome,
    RenderCommand, SurfaceError};
use crate::swapchain::{select_surface_format, spec_format_selected, ResizeAction, SurfaceFormat,
    SwapchainConfig};
use crate::toggle::{concerns_toggle_key, spec_toggle_next, toggle_step, InputEvent, ToggleState};

verus! {

/// The physical size of the window's drawable area, in pixels.
#[derive(Clone, Copy, Debug, PartialEq, Eq, Structural)]
pub struct WindowSize {
    pub width: u32,
    pub height: u32,
}

/// Why startup failed. Every one of these is fatal: the driver aborts, there
/// is no degraded render path.
#[derive(Clone, Copy, Debug, PartialEq, Eq, Structural)]
pub enum SetupError {
    /// The embedded texture asset is not a decodable image.
    DecodeFailed,
    /// The decoded texture is too wide for its row pitch to be expressed.
    RowPitchOverflow,
    /// A binding-set layout a shader declares does not match the supplied
    /// pipeline layout.
    LayoutMismatch,
}

/// The rasterizer's core state. The GPU handles themselves (device, queue,
/// surface, buffers, bind groups) are owned by the driver; this state holds
/// every value the per-tick decisions read or write.
#[derive(Debug)]
pub struct State {
    /// The surface configuration currently in force.
    pub config: SwapchainConfig,
    /// The stored window size; kept equal to the configured size.
    pub size: WindowSize,
    /// Which pipeline variant the next frame draws with.
    pub toggle: ToggleState,
    /// How many indices one full draw of the static geometry covers.
    pub num_indices: u32,
    /// The two compiled pipeline variants.
    pub registry: PipelineRegistry,
    /// The decoded texture and its binding-set layout.
    pub texture: MyTexture,
}

impl State {
    /// Well-formedness, established by `new` and preserved by every method:
    /// the stored size and the configured size agree and are nonzero, the
    /// index count is the static table's length, the texture is coherent,
    /// and the registry keys its variants by the toggle states.
    pub open spec fn wf(&self) -> bool {
        &&& self.config.width == self.size.width
        &&& self.config.height == self.size.height
        &&& self.config.width > 0
        &&& self.config.height > 0
        &&& self.num_indices == spec_indices().len()
        &&& self.texture.wf()
        &&& self.registry.textured.id is VariantA
        &&& self.registry.procedural.id is VariantB
    }

    /// One-time setup, after the driver's adapter and device negotiation:
    /// select the presentation format (first gamma-correct format on offer,
    /// else the first offered), store the initial configuration, decode the
    /// embedded texture, build the shared binding-set layouts and check both
    /// shader programs against them.
    ///
    /// Succeeds exactly when the texture decodes with an expressible row
    /// pitch and both shaders' binding-set layouts match the shared pipeline
    /// layout; every failure is a fatal startup error.
    pub fn new(
        width: u32,
        height: u32,
        formats: &Vec<SurfaceFormat>,
        present_modes: &Vec<u32>,
        texture_bytes: &[u8],
        textured_shader: &ShaderInterface,
        procedural_shader: &ShaderInterface,
    ) -> (r: Result<State, SetupError>)
        requires
            width > 0,
            height > 0,
            formats@.len() > 0,
            present_modes@.len() > 0,
        ensures
            r is Ok <==> {
                &&& rgba_decode_of(texture_bytes@) matches Some(t) && 4 * t.0 <= u32::MAX
                &&& spec_compatible(
                    spec_sets(textured_shader.expected_sets@),
                    seq![spec_texture_layout(), spec_camera_layout()],
                )
                &&& spec_compatible(
                    spec_sets(procedural_shader.expected_sets@),
                    seq![spec_texture_layout(), spec_camera_layout()],
                )
            },
            r matches Ok(s) ==> {
                &&& s.wf()
                &&& spec_format_selected(formats@, s.config.format)
                &&& s.config.width == width
                &&& s.config.height == height
                &&& s.config.present_mode == present_modes@[0]
                &&& s.size == (WindowSize { width, height })
                &&& s.toggle is VariantA
                &&& s.num_indices == spec_indices().len()
                &&& rgba_decode_of(texture_bytes@) == Some(
                    (s.texture.image.width, s.texture.image.height, s.texture.image.pixels@),
                )
                &&& s.registry.textured.uses_vertex_buffer
                    == textured_shader.uses_vertex_buffer
                &&& s.registry.procedural.uses_vertex_buffer
                    == procedural_shader.uses_vertex_buffer
            },
            r == Result::<State, SetupError>::Err(SetupError::DecodeFailed) <==> rgba_decode_of(
                texture_bytes@,
            ) is None,
            r == Result::<State, SetupError>::Err(SetupError::RowPitchOverflow) <==> (
            rgba_decode_of(texture_bytes@) matches Some(t) && 4 * t.0 > u32::MAX),
    {
        let format = select_surface_format(formats);
        let config = SwapchainConfig { format, width, height, present_mode: present_modes[0] };

        let texture = match MyTexture::new(texture_bytes) {
            Ok(t) => t,
            Err(TextureError::DecodeFailed) => {
                return Err(SetupError::DecodeFailed);
            },
            Err(TextureError::RowPitchOverflow) => {
                return Err(SetupError::RowPitchOverflow);
            },
        };

        let provided: Vec<BindingSetLayout> = vec![
            texture_binding_layout(),
            camera_binding_layout(),
        ];
        assert(spec_sets(provided@) =~= seq![spec_texture_layout(), spec_camera_layout()]);

        let registry = match PipelineRegistry::new(textured_shader, procedural_shader, &provided) {
            Ok(reg) => reg,
            Err(_) => {
                return Err(SetupError::LayoutMismatch);
            },
        };

        let num_indices = crate::geometry::index_count();

        Ok(
            State {
                config,
                size: WindowSize { width, height },
                toggle: ToggleState::VariantA,
                num_indices,
                registry,
                texture,
            },
        )
    }

    /// Handle a resize request. A request with a zero dimension is ignored
    /// entirely: neither the stored size nor the configuration changes and
    /// the driver does nothing. Otherwise the stored width and height are
    /// updated to exactly the requested size and the driver must perform
    /// exactly one reconfigure of the surface with the returned
    /// configuration.
    pub fn resize(&mut self, width: u32, height: u32) -> (action: ResizeAction)
        ensures
            width > 0 && height > 0 ==> {
                &&& final(self).config == (SwapchainConfig { width, height, ..old(self).config })
                &&& final(self).size == (WindowSize { width, height })
                &&& action == ResizeAction::Reconfigure(final(self).config)
            },
            !(width > 0 && height > 0) ==> {
                &&& *final(self) == *old(self)
                &&& action is Ignore
            },
            final(self).toggle == old(self).toggle,
            final(self).num_indices == old(self).num_indices,
            final(self).registry == old(self).registry,
            final(self).texture == old(self).texture,
            final(self).config.format == old(self).config.format,
            final(self).config.present_mode == old(self).config.present_mode,
            old(self).wf() && width > 0 && height > 0 ==> final(self).wf(),
            old(self).wf() ==> final(self).wf(),
    {
        if width > 0 && height > 0 {
            self.size = WindowSize { width, height };
            self.config.width = width;
            self.config.height = height;
            ResizeAction::Reconfigure(self.config)
        } else {
            ResizeAction::Ignore
        }
    }

    /// Handle a keyboard event. Events concerning the toggle key are
    /// consumed (reported as handled); of those, only a release edge flips
    /// the selected variant — presses and auto-repeats never do. Every other
    /// event is reported as not handled and propagates to the driver
    /// unchanged; nothing else of the state moves.
    pub fn input(&mut self, event: &InputEvent) -> (handled: bool)
        ensures
            handled == concerns_toggle_key(*event),
            final(self).toggle == spec_toggle_next(old(self).toggle, *event),
            final(self).config == old(self).config,
            final(self).size == old(self).size,
            final(self).num_indices == old(self).num_indices,
            final(self).registry == old(self).registry,
            final(self).texture == old(self).texture,
            old(self).wf() ==> final(self).wf(),
    {
        let (next, handled) = toggle_step(self.toggle, event);
        self.toggle = next;
        handled
    }

    /// Per-tick update. The scene is static: nothing changes.
    pub fn update(&mut self)
        ensures
            *final(self) == *old(self),
    {
    }

    /// Render one frame, given the outcome of the driver's acquire of the
    /// next presentable image.
    ///
    /// On a successful acquire the full command list of the frame is
    /// returned for the driver to perform in order. On any other outcome
    /// nothing is recorded or submitted and the matching typed error is
    /// returned: a lost, outdated or timed-out surface is recoverable (the
    /// driver reconfigures or skips the frame), out of memory is fatal.
    pub fn render(&self, acquired: AcquireOutcome) -> (r: Result<Vec<RenderCommand>, SurfaceError>)
        ensures
            r is Ok <==> acquired is Acquired,
            r matches Ok(cmds) ==> cmds@ == spec_frame_commands(self.toggle, self.num_indices),
            r matches Err(e) ==> e == spec_acquire_error(acquired),
    {
        match acquired {
            AcquireOutcome::Acquired => Ok(frame_commands(self.toggle, self.num_indices)),
            AcquireOutcome::Timeout => Err(SurfaceError::Timeout),
            AcquireOutcome::Outdated => Err(SurfaceError::Outdated),
            AcquireOutcome::Lost => Err(SurfaceError::Lost),
            AcquireOutcome::OutOfMemory => Err(SurfaceError::OutOfMemory),
        }
    }
}

/// Every successful `render` issues exactly one draw, and it covers the
/// full static index table — all nine indices of the pentagon fan, one
/// instance — whichever pipeline variant is active.
pub proof fn lemma_render_draws_full_table(s: State)
    requires
        s.wf(),
    ensures
        exists|i: int|
            0 <= i < spec_frame_commands(s.toggle, s.num_indices).len() && spec_frame_commands(
                s.toggle,
                s.num_indices,
            )[i] == (RenderCommand::DrawIndexed {
                index_count: spec_indices().len() as u32,
                instance_count: 1,
            }),
        forall|i: int|
            0 <= i < spec_frame_commands(s.toggle, s.num_indices).len() && spec_frame_commands(
                s.toggle,
                s.num_indices,
            )[i] is DrawIndexed ==> spec_frame_commands(s.toggle, s.num_indices)[i]
                == (RenderCommand::DrawIndexed {
                index_count: spec_indices().len() as u32,
                instance_count: 1,
            }),
{
    crate::render::lemma_frame_single_full_draw(s.toggle, s.num_indices);
}

} // verus!
