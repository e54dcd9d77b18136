//! Drawing one frame: the order of the steps, how each outcome decides
//! the frame's status, and the commands recorded for a batch of models.

use vstd::prelude::*;
use crate::vk::{vk_result_debug, vk_result_name, RESULT_ERROR_OUT_OF_DATE};

verus! {

/// How drawing a frame ended.
#[derive(Debug, Clone, Copy, PartialEq, Eq, Structural)]
pub enum FrameStatus {
    Rendered,
    /// The swapchain no longer matches the surface and must be rebuilt.
    SwapchainNeedsRebuild,
}

/// Why a frame could not be drawn.
#[derive(Debug, Clone, Copy, PartialEq, Eq, Structural)]
pub enum VulkanFrameError {
    /// A Vulkan call failed with this `VkResult` code.
    Vulkan(i32),
}

impl VulkanFrameError {
    /// The text the error displays.
    pub open spec fn text(&self) -> Seq<char> {
        match self {
            VulkanFrameError::Vulkan(code) => "Vulkan frame error: "@ + vk_result_debug(*code),
        }
    }

    /// The text the error displays.
    pub fn message(&self) -> (r: String)
        ensures
            r@ == self.text(),
    {
        match self {
            VulkanFrameError::Vulkan(code) => {
                let mut s = String::from_str("Vulkan frame error: ");
                let name = vk_result_name(*code);
                s.append(name.as_str());
                s
            },
        }
    }
}

/// The next step of drawing a frame.
#[derive(Debug, Clone, Copy, PartialEq, Eq, Structural)]
pub enum FrameStep {
    /// Wait until the previous frame's fence is signalled.
    WaitForFence,
    /// Acquire the next swapchain image.
    AcquireImage,
    /// Reset the frame's command pool.
    ResetCommandPool { image_index: u32 },
    /// Record the draw commands for the acquired image.
    RecordCommands { image_index: u32 },
    /// Reset the in-flight fence.
    ResetFence { image_index: u32 },
    /// Submit the command buffer to the graphics queue.
    Submit { image_index: u32 },
    /// Present the image on the present queue.
    Present { image_index: u32 },
    /// The frame is over with this status.
    Finished(FrameStatus),
    /// The frame failed.
    Aborted(VulkanFrameError),
}

/// What a step gave.
#[derive(Debug, Clone, Copy, PartialEq, Eq, Structural)]
pub enum StepOutcome {
    /// The step succeeded.
    Done,
    /// The image was acquired; `suboptimal` when the swapchain no longer
    /// matches the surface exactly.
    Acquired { image_index: u32, suboptimal: bool },
    /// The image was queued for presentation.
    Presented { suboptimal: bool },
    /// The step failed with this `VkResult` code.
    Failed(i32),
}

/// The progress of drawing one frame.
#[derive(Debug, Clone, Copy, PartialEq, Eq, Structural)]
pub struct FrameDraw {
    pub step: FrameStep,
    /// Whether acquiring the image reported a suboptimal swapchain.
    pub acquire_suboptimal: bool,
}

/// Whether `o` is an outcome that step `s` can give.
pub open spec fn outcome_fits(s: FrameStep, o: StepOutcome) -> bool {
    match s {
        FrameStep::Finished(_) | FrameStep::Aborted(_) => false,
        FrameStep::AcquireImage => o is Acquired || o is Failed,
        FrameStep::Present { .. } => o is Presented || o is Failed,
        _ => o is Done || o is Failed,
    }
}

/// A failed acquire or present: out of date asks for a rebuild, any other
/// code is an error.
pub open spec fn swapchain_failure(code: i32) -> FrameStep {
    if code == RESULT_ERROR_OUT_OF_DATE {
        FrameStep::Finished(FrameStatus::SwapchainNeedsRebuild)
    } else {
        FrameStep::Aborted(VulkanFrameError::Vulkan(code))
    }
}

/// Whether the frame is over.
pub open spec fn frame_is_over(s: FrameStep) -> bool {
    s is Finished || s is Aborted
}

/// The drawing after step `d.step` gave `o`.
pub open spec fn frame_step(d: FrameDraw, o: StepOutcome) -> FrameDraw {
    let go = |s: FrameStep| FrameDraw { step: s, acquire_suboptimal: d.acquire_suboptimal };
    match (d.step, o) {
        (FrameStep::AcquireImage, StepOutcome::Acquired { image_index, suboptimal }) => FrameDraw {
            step: FrameStep::ResetCommandPool { image_index },
            acquire_suboptimal: suboptimal,
        },
        (FrameStep::AcquireImage, StepOutcome::Failed(code)) => go(swapchain_failure(code)),
        (FrameStep::Present { .. }, StepOutcome::Presented { suboptimal }) => go(
            if d.acquire_suboptimal || suboptimal {
                FrameStep::Finished(FrameStatus::SwapchainNeedsRebuild)
            } else {
                FrameStep::Finished(FrameStatus::Rendered)
            },
        ),
        (FrameStep::Present { .. }, StepOutcome::Failed(code)) => go(swapchain_failure(code)),
        (FrameStep::Finished(_), _) => d,
        (FrameStep::Aborted(_), _) => d,
        (_, StepOutcome::Failed(code)) => go(FrameStep::Aborted(VulkanFrameError::Vulkan(code))),
        (FrameStep::WaitForFence, _) => go(FrameStep::AcquireImage),
        (FrameStep::ResetCommandPool { image_index }, _) => go(FrameStep::RecordCommands { image_index }),
        (FrameStep::RecordCommands { image_index }, _) => go(FrameStep::ResetFence { image_index }),
        (FrameStep::ResetFence { image_index }, _) => go(FrameStep::Submit { image_index }),
        (FrameStep::Submit { image_index }, _) => go(FrameStep::Present { image_index }),
        _ => d,
    }
}

impl FrameDraw {
    /// A frame that has not started.
    pub fn new() -> (r: Self)
        ensures
            r == (FrameDraw { step: FrameStep::WaitForFence, acquire_suboptimal: false }),
    {
        FrameDraw { step: FrameStep::WaitForFence, acquire_suboptimal: false }
    }

    /// The step to perform next.
    pub fn next_step(&self) -> (r: FrameStep)
        ensures
            r == self.step,
    {
        self.step
    }

    /// Takes what the current step gave.
    pub fn advance(&mut self, outcome: StepOutcome)
        requires
            outcome_fits(old(self).step, outcome),
        ensures
            *final(self) == frame_step(*old(self), outcome),
    {
        let finish_failure = |code: i32| -> (r: FrameStep)
            ensures
                r == swapchain_failure(code),
            {
                if code == RESULT_ERROR_OUT_OF_DATE {
                    FrameStep::Finished(FrameStatus::SwapchainNeedsRebuild)
                } else {
                    FrameStep::Aborted(VulkanFrameError::Vulkan(code))
                }
            };
        match (self.step, outcome) {
            (FrameStep::AcquireImage, StepOutcome::Acquired { image_index, suboptimal }) => {
                self.step = FrameStep::ResetCommandPool { image_index };
                self.acquire_suboptimal = suboptimal;
            },
            (FrameStep::AcquireImage, StepOutcome::Failed(code)) => {
                self.step = finish_failure(code);
            },
            (FrameStep::Present { .. }, StepOutcome::Presented { suboptimal }) => {
                self.step = FrameStep::Finished(
                    if self.acquire_suboptimal || suboptimal {
                        FrameStatus::SwapchainNeedsRebuild
                    } else {
                        FrameStatus::Rendered
                    },
                );
            },
            (FrameStep::Present { .. }, StepOutcome::Failed(code)) => {
                self.step = finish_failure(code);
            },
            (FrameStep::Finished(_), _) => {},
            (FrameStep::Aborted(_), _) => {},
            (_, StepOutcome::Failed(code)) => {
                self.step = FrameStep::Aborted(VulkanFrameError::Vulkan(code));
            },
            (FrameStep::WaitForFence, _) => {
                self.step = FrameStep::AcquireImage;
            },
            (FrameStep::ResetCommandPool { image_index }, _) => {
                self.step = FrameStep::RecordCommands { image_index };
            },
            (FrameStep::RecordCommands { image_index }, _) => {
                self.step = FrameStep::ResetFence { image_index };
            },
            (FrameStep::ResetFence { image_index }, _) => {
                self.step = FrameStep::Submit { image_index };
            },
            (FrameStep::Submit { image_index }, _) => {
                self.step = FrameStep::Present { image_index };
            },
            _ => {},
        }
    }
}

/// The drawing after a run of steps, each giving the next outcome.
pub open spec fn frame_run(d: FrameDraw, outcomes: Seq<StepOutcome>) -> FrameDraw
    decreases outcomes.len(),
{
    if outcomes.len() == 0 {
        d
    } else {
        frame_run(frame_step(d, outcomes[0]), outcomes.drop_first())
    }
}

/// The outcomes of a frame whose every step succeeds.
pub open spec fn successful_frame(image_index: u32, acquire_suboptimal: bool, present_suboptimal: bool) -> Seq<StepOutcome> {
    seq![
        StepOutcome::Done,
        StepOutcome::Acquired { image_index, suboptimal: acquire_suboptimal },
        StepOutcome::Done,
        StepOutcome::Done,
        StepOutcome::Done,
        StepOutcome::Done,
        StepOutcome::Presented { suboptimal: present_suboptimal },
    ]
}

/// When every step succeeds, the frame is rendered unless acquiring or
/// presenting reported a suboptimal swapchain, which asks for a rebuild.
pub proof fn law_successful_frame_status(image_index: u32, acquire_suboptimal: bool, present_suboptimal: bool)
    ensures
        frame_run(FrameDraw { step: FrameStep::WaitForFence, acquire_suboptimal: false }, successful_frame(image_index, acquire_suboptimal, present_suboptimal)).step
            == FrameStep::Finished(
            if acquire_suboptimal || present_suboptimal {
                FrameStatus::SwapchainNeedsRebuild
            } else {
                FrameStatus::Rendered
            },
        ),
{
    let s = successful_frame(image_index, acquire_suboptimal, present_suboptimal);
    reveal_with_fuel(frame_run, 8);
    assert(s.drop_first().drop_first().drop_first().drop_first().drop_first().drop_first().drop_first() =~= Seq::<StepOutcome>::empty());
}

/// An out-of-date swapchain, when acquiring or presenting, asks for a
/// rebuild and is never an error; after a failed acquire nothing is
/// submitted or presented, and any other failure ends the frame with it.
pub proof fn law_failures_end_the_frame(d: FrameDraw, code: i32)
    requires
        !frame_is_over(d.step),
    ensures
        (d.step is AcquireImage || d.step is Present) && code == RESULT_ERROR_OUT_OF_DATE
            ==> frame_step(d, StepOutcome::Failed(code)).step
            == FrameStep::Finished(FrameStatus::SwapchainNeedsRebuild),
        code != RESULT_ERROR_OUT_OF_DATE ==> frame_step(d, StepOutcome::Failed(code)).step
            == FrameStep::Aborted(VulkanFrameError::Vulkan(code)),
        forall|o: StepOutcome| #[trigger] frame_step(frame_step(d, StepOutcome::Failed(code)), o)
            == frame_step(d, StepOutcome::Failed(code)),
{
}

/// Acquiring an image, suboptimal or not, never ends the frame: the frame
/// goes on to reset the command pool for the acquired image, remembering
/// whether the swapchain was suboptimal.
pub proof fn law_acquired_image_is_drawn(d: FrameDraw, image_index: u32, suboptimal: bool)
    requires
        d.step == FrameStep::AcquireImage,
    ensures
        frame_step(d, StepOutcome::Acquired { image_index, suboptimal }).step
            == (FrameStep::ResetCommandPool { image_index }),
        frame_step(d, StepOutcome::Acquired { image_index, suboptimal }).acquire_suboptimal == suboptimal,
{
}

/// A frame whose steps all succeed waits for the fence, acquires an image,
/// then resets the pool, records, resets the fence, submits and presents
/// that same image, whatever acquiring reported; only after presenting does
/// it end, asking for a rebuild when either acquire or present was
/// suboptimal.
pub proof fn law_frame_step_order(image_index: u32, acquire_suboptimal: bool, present_suboptimal: bool)
    ensures
        ({
            let d0 = FrameDraw { step: FrameStep::WaitForFence, acquire_suboptimal: false };
            let d1 = frame_step(d0, StepOutcome::Done);
            let d2 = frame_step(d1, StepOutcome::Acquired { image_index, suboptimal: acquire_suboptimal });
            let d3 = frame_step(d2, StepOutcome::Done);
            let d4 = frame_step(d3, StepOutcome::Done);
            let d5 = frame_step(d4, StepOutcome::Done);
            let d6 = frame_step(d5, StepOutcome::Done);
            let d7 = frame_step(d6, StepOutcome::Presented { suboptimal: present_suboptimal });
            &&& d1.step == FrameStep::AcquireImage
            &&& d2.step == (FrameStep::ResetCommandPool { image_index })
            &&& d3.step == (FrameStep::RecordCommands { image_index })
            &&& d4.step == (FrameStep::ResetFence { image_index })
            &&& d5.step == (FrameStep::Submit { image_index })
            &&& d6.step == (FrameStep::Present { image_index })
            &&& d7.step == FrameStep::Finished(
                if acquire_suboptimal || present_suboptimal {
                    FrameStatus::SwapchainNeedsRebuild
                } else {
                    FrameStatus::Rendered
                },
            )
        }),
{
}

/// A command recorded into the frame's command buffer.
#[derive(Debug, Clone, Copy, PartialEq, Eq, Structural)]
pub enum DrawCommand {
    BeginCommandBuffer,
    /// Move the image from undefined to color-attachment layout.
    TransitionToColorAttachment,
    /// Begin dynamic rendering, clearing the image.
    BeginRendering,
    /// Set the viewport to the whole extent.
    SetViewport,
    /// Set the scissor to the whole extent.
    SetScissor,
    BindPipeline,
    BindVertexBuffer,
    BindIndexBuffer,
    /// Push the transform of model number `model` of the batch.
    PushModel { model: usize },
    /// Draw `index_count` indices of the mesh once.
    DrawIndexed { index_count: u32 },
    EndRendering,
    /// Move the image from color-attachment to present layout.
    TransitionToPresent,
    EndCommandBuffer,
}

/// The commands before the models.
pub open spec fn draw_prologue() -> Seq<DrawCommand> {
    seq![
        DrawCommand::BeginCommandBuffer,
        DrawCommand::TransitionToColorAttachment,
        DrawCommand::BeginRendering,
        DrawCommand::SetViewport,
        DrawCommand::SetScissor,
        DrawCommand::BindPipeline,
        DrawCommand::BindVertexBuffer,
        DrawCommand::BindIndexBuffer,
    ]
}

/// The commands after the models.
pub open spec fn draw_epilogue() -> Seq<DrawCommand> {
    seq![DrawCommand::EndRendering, DrawCommand::TransitionToPresent, DrawCommand::EndCommandBuffer]
}

/// For each model in turn, its transform and one indexed draw of the mesh.
pub open spec fn model_draws(model_count: nat, index_count: u32) -> Seq<DrawCommand> {
    Seq::new(
        2 * model_count,
        |k: int|
            if k % 2 == 0 {
                DrawCommand::PushModel { model: (k / 2) as usize }
            } else {
                DrawCommand::DrawIndexed { index_count }
            },
    )
}

/// The commands of a frame that draws the mesh once per model.
pub open spec fn spec_draw_commands(model_count: nat, index_count: u32) -> Seq<DrawCommand> {
    draw_prologue() + model_draws(model_count, index_count) + draw_epilogue()
}

/// Lists the commands recorded for a batch of `model_count` models sharing
/// one pipeline and one mesh of `index_count` indices.
pub fn plan_draw_commands(model_count: usize, index_count: u32) -> (r: Vec<DrawCommand>)
    requires
        2 * model_count + 11 <= usize::MAX,
    ensures
        r@ == spec_draw_commands(model_count as nat, index_count),
{
    let mut r: Vec<DrawCommand> = Vec::new();
    r.push(DrawCommand::BeginCommandBuffer);
    r.push(DrawCommand::TransitionToColorAttachment);
    r.push(DrawCommand::BeginRendering);
    r.push(DrawCommand::SetViewport);
    r.push(DrawCommand::SetScissor);
    r.push(DrawCommand::BindPipeline);
    r.push(DrawCommand::BindVertexBuffer);
    r.push(DrawCommand::BindIndexBuffer);
    assert(r@ =~= draw_prologue());
    let mut m: usize = 0;
    while m < model_count
        invariant
            m <= model_count,
            r@ =~= draw_prologue() + model_draws(m as nat, index_count),
        decreases model_count - m,
    {
        r.push(DrawCommand::PushModel { model: m });
        r.push(DrawCommand::DrawIndexed { index_count });
        assert(model_draws((m + 1) as nat, index_count) =~= model_draws(m as nat, index_count).push(
            DrawCommand::PushModel { model: m },
        ).push(DrawCommand::DrawIndexed { index_count }));
        m = m + 1;
    }
    r.push(DrawCommand::EndRendering);
    r.push(DrawCommand::TransitionToPresent);
    r.push(DrawCommand::EndCommandBuffer);
    assert(r@ =~= spec_draw_commands(model_count as nat, index_count));
    r
}

/// The exact command list of a frame: begin the command buffer, move the
/// image to color-attachment layout, begin rendering, set viewport and
/// scissor, bind the pipeline, the vertex buffer and the index buffer (each
/// once, before any model is drawn), then each model's transform and draw,
/// then end rendering, move the image to present layout and end the
/// command buffer. The pipeline is bound exactly once.
pub proof fn law_draw_command_layout(model_count: nat, index_count: u32)
    ensures
        ({
            let s = spec_draw_commands(model_count, index_count);
            let n = s.len() as int;
            &&& n == 2 * model_count + 11
            &&& s[0] == DrawCommand::BeginCommandBuffer
            &&& s[1] == DrawCommand::TransitionToColorAttachment
            &&& s[2] == DrawCommand::BeginRendering
            &&& s[3] == DrawCommand::SetViewport
            &&& s[4] == DrawCommand::SetScissor
            &&& s[5] == DrawCommand::BindPipeline
            &&& s[6] == DrawCommand::BindVertexBuffer
            &&& s[7] == DrawCommand::BindIndexBuffer
            &&& s[n - 3] == DrawCommand::EndRendering
            &&& s[n - 2] == DrawCommand::TransitionToPresent
            &&& s[n - 1] == DrawCommand::EndCommandBuffer
            &&& forall|k: int| 0 <= k < n && k != 5 ==> s[k] != DrawCommand::BindPipeline
            &&& forall|k: int| 8 <= k < n - 3 ==> (#[trigger] s[k] is PushModel || s[k] is DrawIndexed)
        }),
{
    let s = spec_draw_commands(model_count, index_count);
    let n = s.len() as int;
    assert forall|k: int| 8 <= k < n - 3 implies (#[trigger] s[k] is PushModel || s[k] is DrawIndexed) by {
        assert(s[k] == model_draws(model_count, index_count)[k - 8]);
    }
    assert forall|k: int| 0 <= k < n && k != 5 implies s[k] != DrawCommand::BindPipeline by {
        if 8 <= k < n - 3 {
            assert(s[k] == model_draws(model_count, index_count)[k - 8]);
        }
    }
}

/// Where the commands of model `k` start in a frame's command list.
pub open spec fn model_slot(k: int) -> int {
    8 + 2 * k
}

/// Every model of the batch is drawn exactly once, in order, right after
/// its transform is pushed, between the start and the end of rendering.
pub proof fn law_each_model_drawn_once(model_count: nat, index_count: u32)
    ensures
        spec_draw_commands(model_count, index_count).len() == 2 * model_count + 11,
        forall|k: int| 0 <= k < model_count ==>
            #[trigger] spec_draw_commands(model_count, index_count)[model_slot(k)]
                == (DrawCommand::PushModel { model: k as usize })
            && spec_draw_commands(model_count, index_count)[model_slot(k) + 1]
                == (DrawCommand::DrawIndexed { index_count }),
        spec_draw_commands(model_count, index_count)[2] == DrawCommand::BeginRendering,
        spec_draw_commands(model_count, index_count)[model_slot(model_count as int)] == DrawCommand::EndRendering,
{
    let s = spec_draw_commands(model_count, index_count);
    assert forall|k: int| 0 <= k < model_count implies
        #[trigger] s[model_slot(k)] == (DrawCommand::PushModel { model: k as usize })
        && s[model_slot(k) + 1] == (DrawCommand::DrawIndexed { index_count }) by {
        assert((2 * k) % 2 == 0 && (2 * k) / 2 == k);
        assert((2 * k + 1) % 2 == 1);
    }
}

} // verus!
