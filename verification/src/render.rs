//! The per-frame rendering state machine: what one frame records once a
//! presentable image is acquired, and how each acquire failure is classified.
//!
//! The driver acquires the image, hands the outcome over, and performs the
//! recorded commands in order; submission always precedes presentation.

use vstd::prelude::*;

use crate::toggle::ToggleState;

verus! {

/// The outcome the swapchain reported when asked for the next presentable
/// image.
#[derive(Clone, Copy, Debug, PartialEq, Eq, Structural)]
pub enum AcquireOutcome {
    /// An image was acquired; the frame can be recorded.
    Acquired,
    /// The acquire timed out; the frame is skipped.
    Timeout,
    /// The surface no longer matches its configuration.
    Outdated,
    /// The surface was lost and must be reconfigured.
    Lost,
    /// The device is out of memory.
    OutOfMemory,
}

/// The typed per-frame surface failure returned to the driver.
#[derive(Clone, Copy, Debug, PartialEq, Eq, Structural)]
pub enum SurfaceError {
    Timeout,
    Outdated,
    Lost,
    OutOfMemory,
}

/// Whether the driver can recover from this failure by reconfiguring the
/// swapchain (or simply skipping the frame). Only running out of memory is
/// fatal.
pub open spec fn spec_recoverable(e: SurfaceError) -> bool {
    match e {
        SurfaceError::Timeout => true,
        SurfaceError::Outdated => true,
        SurfaceError::Lost => true,
        SurfaceError::OutOfMemory => false,
    }
}

impl SurfaceError {
    /// Whether the driver may keep the window alive after this failure:
    /// true for a lost, outdated or timed-out surface, false for the fatal
    /// out-of-memory condition.
    pub fn is_recoverable(&self) -> (r: bool)
        ensures
            r == spec_recoverable(*self),
    {
        match self {
            SurfaceError::Timeout => true,
            SurfaceError::Outdated => true,
            SurfaceError::Lost => true,
            SurfaceError::OutOfMemory => false,
        }
    }
}

/// The error a failed acquire outcome is returned as.
pub open spec fn spec_acquire_error(a: AcquireOutcome) -> SurfaceError
    recommends
        a !is Acquired,
{
    match a {
        AcquireOutcome::Timeout => SurfaceError::Timeout,
        AcquireOutcome::Outdated => SurfaceError::Outdated,
        AcquireOutcome::Lost => SurfaceError::Lost,
        _ => SurfaceError::OutOfMemory,
    }
}

/// The fixed clear color, in thousandths of full intensity per channel:
/// r = 0.1, g = 0.2, b = 0.3, a = 1.0.
#[derive(Clone, Copy, Debug, PartialEq, Eq, Structural)]
pub struct ClearColor {
    pub red_milli: u32,
    pub green_milli: u32,
    pub blue_milli: u32,
    pub alpha_milli: u32,
}

/// The clear color every frame starts from.
pub open spec fn spec_clear_color() -> ClearColor {
    ClearColor { red_milli: 100, green_milli: 200, blue_milli: 300, alpha_milli: 1000 }
}

/// Which of the two shared binding sets a command binds.
#[derive(Clone, Copy, Debug, PartialEq, Eq, Structural)]
pub enum BindGroupId {
    /// The (texture view, sampler) set of the diffuse texture.
    DiffuseTexture,
    /// The camera-uniform set.
    Camera,
}

/// One recorded GPU operation of a frame, in the order the driver must
/// perform them.
#[derive(Clone, Copy, Debug, PartialEq, Eq, Structural)]
pub enum RenderCommand {
    /// Begin the single render pass targeting the acquired image's view,
    /// clearing it to the given color and storing the results.
    BeginRenderPass { clear: ClearColor, store: bool },
    /// Select the pipeline variant the toggle state indicates.
    SetPipeline { variant: ToggleState },
    /// Bind one of the shared binding sets at its fixed slot.
    SetBindGroup { slot: u32, group: BindGroupId },
    /// Bind the static vertex buffer at the given slot.
    SetVertexBuffer { slot: u32 },
    /// Bind the static index buffer with 16-bit indices.
    SetIndexBufferU16,
    /// Issue one indexed draw over the given index range.
    DrawIndexed { index_count: u32, instance_count: u32 },
    /// End the render pass.
    EndRenderPass,
    /// Finish the command buffer and submit it to the queue.
    Submit,
    /// Present the acquired image. Always after submission.
    Present,
}

/// Everything one successful frame records, in order: one render pass that
/// clears to the fixed color, selects the variant the toggle indicates,
/// binds both shared binding sets and the static geometry, and issues
/// exactly one indexed draw over the full static index range with one
/// instance; then submit, then present.
pub open spec fn spec_frame_commands(variant: ToggleState, index_count: u32) -> Seq<
    RenderCommand,
> {
    seq![
        RenderCommand::BeginRenderPass { clear: spec_clear_color(), store: true },
        RenderCommand::SetPipeline { variant },
        RenderCommand::SetBindGroup { slot: 0, group: BindGroupId::DiffuseTexture },
        RenderCommand::SetBindGroup { slot: 1, group: BindGroupId::Camera },
        RenderCommand::SetVertexBuffer { slot: 0 },
        RenderCommand::SetIndexBufferU16,
        RenderCommand::DrawIndexed { index_count, instance_count: 1 },
        RenderCommand::EndRenderPass,
        RenderCommand::Submit,
        RenderCommand::Present,
    ]
}

/// Record the commands of one frame.
pub fn frame_commands(variant: ToggleState, index_count: u32) -> (r: Vec<RenderCommand>)
    ensures
        r@ == spec_frame_commands(variant, index_count),
{
    let r = vec![
        RenderCommand::BeginRenderPass { clear: ClearColor {
            red_milli: 100,
            green_milli: 200,
            blue_milli: 300,
            alpha_milli: 1000,
        }, store: true },
        RenderCommand::SetPipeline { variant },
        RenderCommand::SetBindGroup { slot: 0, group: BindGroupId::DiffuseTexture },
        RenderCommand::SetBindGroup { slot: 1, group: BindGroupId::Camera },
        RenderCommand::SetVertexBuffer { slot: 0 },
        RenderCommand::SetIndexBufferU16,
        RenderCommand::DrawIndexed { index_count, instance_count: 1 },
        RenderCommand::EndRenderPass,
        RenderCommand::Submit,
        RenderCommand::Present,
    ];
    assert(r@ =~= spec_frame_commands(variant, index_count));
    r
}

/// Every frame issues exactly one draw, and it covers the full static index
/// range with one instance, whichever pipeline variant is active.
pub proof fn lemma_frame_single_full_draw(variant: ToggleState, index_count: u32)
    ensures
        exists|i: int|
            0 <= i < spec_frame_commands(variant, index_count).len()
                && spec_frame_commands(variant, index_count)[i] == (RenderCommand::DrawIndexed {
                index_count,
                instance_count: 1,
            }),
        forall|i: int|
            0 <= i < spec_frame_commands(variant, index_count).len() && spec_frame_commands(
                variant,
                index_count,
            )[i] is DrawIndexed ==> spec_frame_commands(variant, index_count)[i]
                == (RenderCommand::DrawIndexed { index_count, instance_count: 1 }),
{
    let cmds = spec_frame_commands(variant, index_count);
    assert(cmds[6] == (RenderCommand::DrawIndexed { index_count, instance_count: 1 }));
    assert forall|i: int| 0 <= i < cmds.len() && cmds[i] is DrawIndexed implies cmds[i]
        == (RenderCommand::DrawIndexed { index_count, instance_count: 1 }) by {
        if i != 6 {
            assert(!(cmds[i] is DrawIndexed));
        }
    }
}

/// Submission precedes presentation: the one submit command stands strictly
/// before the one present command, and both are recorded exactly once.
pub proof fn lemma_submit_before_present(variant: ToggleState, index_count: u32)
    ensures
        ({
            let cmds = spec_frame_commands(variant, index_count);
            &&& exists|i: int| 0 <= i < cmds.len() && cmds[i] is Submit
            &&& exists|i: int| 0 <= i < cmds.len() && cmds[i] is Present
            &&& forall|i: int, j: int|
                (0 <= i < cmds.len() && 0 <= j < cmds.len() && cmds[i] is Submit
                    && cmds[j] is Present) ==> i < j
        }),
{
    let cmds = spec_frame_commands(variant, index_count);
    assert(cmds[8] is Submit);
    assert(cmds[9] is Present);
    assert forall|i: int, j: int|
        (0 <= i < cmds.len() && 0 <= j < cmds.len() && cmds[i] is Submit
            && cmds[j] is Present) implies i < j by {
        if i != 8 {
            assert(!(cmds[i] is Submit));
        }
        if j != 9 {
            assert(!(cmds[j] is Present));
        }
    }
}

} // verus!
