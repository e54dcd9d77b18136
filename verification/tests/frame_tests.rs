use renderer::frame::{
    plan_draw_commands, DrawCommand, FrameDraw, FrameStatus, FrameStep, StepOutcome, VulkanFrameError,
};

const OUT_OF_DATE: i32 = -1000001004;

fn run(outcomes: &[StepOutcome]) -> FrameStep {
    let mut draw = FrameDraw::new();
    for o in outcomes {
        draw.advance(*o);
    }
    draw.next_step()
}

fn success(acquire_suboptimal: bool, present_suboptimal: bool) -> Vec<StepOutcome> {
    vec![
        StepOutcome::Done,
        StepOutcome::Acquired { image_index: 1, suboptimal: acquire_suboptimal },
        StepOutcome::Done,
        StepOutcome::Done,
        StepOutcome::Done,
        StepOutcome::Done,
        StepOutcome::Presented { suboptimal: present_suboptimal },
    ]
}

#[test]
fn frame_steps_in_order() {
    let mut draw = FrameDraw::new();
    assert_eq!(draw.next_step(), FrameStep::WaitForFence);
    draw.advance(StepOutcome::Done);
    assert_eq!(draw.next_step(), FrameStep::AcquireImage);
    draw.advance(StepOutcome::Acquired { image_index: 2, suboptimal: false });
    assert_eq!(draw.next_step(), FrameStep::ResetCommandPool { image_index: 2 });
    draw.advance(StepOutcome::Done);
    assert_eq!(draw.next_step(), FrameStep::RecordCommands { image_index: 2 });
    draw.advance(StepOutcome::Done);
    assert_eq!(draw.next_step(), FrameStep::ResetFence { image_index: 2 });
    draw.advance(StepOutcome::Done);
    assert_eq!(draw.next_step(), FrameStep::Submit { image_index: 2 });
    draw.advance(StepOutcome::Done);
    assert_eq!(draw.next_step(), FrameStep::Present { image_index: 2 });
    draw.advance(StepOutcome::Presented { suboptimal: false });
    assert_eq!(draw.next_step(), FrameStep::Finished(FrameStatus::Rendered));
}

#[test]
fn suboptimal_asks_for_rebuild() {
    assert_eq!(run(&success(false, false)), FrameStep::Finished(FrameStatus::Rendered));
    assert_eq!(run(&success(true, false)), FrameStep::Finished(FrameStatus::SwapchainNeedsRebuild));
    assert_eq!(run(&success(false, true)), FrameStep::Finished(FrameStatus::SwapchainNeedsRebuild));
    assert_eq!(run(&success(true, true)), FrameStep::Finished(FrameStatus::SwapchainNeedsRebuild));
}

#[test]
fn out_of_date_is_not_an_error() {
    assert_eq!(
        run(&[StepOutcome::Done, StepOutcome::Failed(OUT_OF_DATE)]),
        FrameStep::Finished(FrameStatus::SwapchainNeedsRebuild)
    );
    let mut outcomes = success(false, false);
    outcomes[6] = StepOutcome::Failed(OUT_OF_DATE);
    assert_eq!(run(&outcomes), FrameStep::Finished(FrameStatus::SwapchainNeedsRebuild));
}

#[test]
fn other_failures_end_the_frame() {
    assert_eq!(
        run(&[StepOutcome::Failed(-4)]),
        FrameStep::Aborted(VulkanFrameError::Vulkan(-4))
    );
    assert_eq!(
        run(&[StepOutcome::Done, StepOutcome::Failed(-3)]),
        FrameStep::Aborted(VulkanFrameError::Vulkan(-3))
    );
    let mut outcomes = success(false, false);
    outcomes[5] = StepOutcome::Failed(-2);
    assert_eq!(run(&outcomes[..6]), FrameStep::Aborted(VulkanFrameError::Vulkan(-2)));
    // a submit that fails with out-of-date is still an error
    outcomes[5] = StepOutcome::Failed(OUT_OF_DATE);
    assert_eq!(run(&outcomes[..6]), FrameStep::Aborted(VulkanFrameError::Vulkan(OUT_OF_DATE)));
}

#[test]
fn draw_commands_for_models() {
    let commands = plan_draw_commands(3, 6);
    assert_eq!(commands.len(), 17);
    assert_eq!(commands[0], DrawCommand::BeginCommandBuffer);
    assert_eq!(commands[1], DrawCommand::TransitionToColorAttachment);
    assert_eq!(commands[2], DrawCommand::BeginRendering);
    assert_eq!(commands[7], DrawCommand::BindIndexBuffer);
    for k in 0..3 {
        assert_eq!(commands[8 + 2 * k], DrawCommand::PushModel { model: k });
        assert_eq!(commands[9 + 2 * k], DrawCommand::DrawIndexed { index_count: 6 });
    }
    assert_eq!(commands[14], DrawCommand::EndRendering);
    assert_eq!(commands[15], DrawCommand::TransitionToPresent);
    assert_eq!(commands[16], DrawCommand::EndCommandBuffer);
    let draws = commands.iter().filter(|c| matches!(c, DrawCommand::DrawIndexed { .. })).count();
    assert_eq!(draws, 3);
}

#[test]
fn draw_commands_without_models() {
    let commands = plan_draw_commands(0, 3);
    assert_eq!(commands.len(), 11);
    assert_eq!(commands[8], DrawCommand::EndRendering);
}

#[test]
fn frame_error_message() {
    assert_eq!(VulkanFrameError::Vulkan(-4).message(), "Vulkan frame error: ERROR_DEVICE_LOST");
    assert_eq!(VulkanFrameError::Vulkan(-999).message(), "Vulkan frame error: -999");
}
