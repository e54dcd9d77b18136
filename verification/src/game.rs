//! The game window's event handling: when to exit, redraw, rebuild the
//! swapchain or draw, and what the rebuild checks first.

use vstd::prelude::*;
use crate::frame::VulkanFrameError;
use crate::swapchain::{Extent2D, VulkanSwapchainError};
use crate::vk::{vk_result_debug, vk_result_name};

verus! {

/// A window event, with the window's inner size where it matters.
#[derive(Debug, Clone, Copy, PartialEq, Eq, Structural)]
pub enum WindowInput {
    CloseRequested,
    Resized { width: u32, height: u32 },
    /// A redraw was requested; the window's inner size at that moment.
    RedrawRequested { width: u32, height: u32 },
    Other,
}

/// What the application does next.
#[derive(Debug, Clone, Copy, PartialEq, Eq, Structural)]
pub enum LoopAction {
    /// Nothing.
    Ignore,
    /// Leave the event loop.
    Exit,
    /// Ask the window for another redraw.
    RequestRedraw,
    /// Rebuild the swapchain, then report how it went.
    RecreateSwapchain,
    /// Draw a frame, then report how it went.
    DrawFrame,
    /// Print the error that was reported, then leave the event loop.
    ReportErrorAndExit,
}

/// How rebuilding the swapchain went.
#[derive(Debug, Clone, Copy, PartialEq, Eq, Structural)]
pub enum RecreateOutcome {
    Recreated,
    /// The window has no area; nothing was rebuilt.
    SkippedZeroSize,
    Failed,
}

/// How drawing a frame went.
#[derive(Debug, Clone, Copy, PartialEq, Eq, Structural)]
pub enum DrawOutcome {
    Rendered,
    NeedsRebuild,
    Failed,
    /// A resource the frame needs does not exist; nothing was drawn.
    ResourcesMissing,
}

/// Where the application is within the handling of one redraw.
#[derive(Debug, Clone, Copy, PartialEq, Eq, Structural)]
pub enum LoopPhase {
    Idle,
    AwaitingRecreate,
    AwaitingDraw,
}

/// The event-handling state of the game.
#[derive(Debug, Clone, Copy, PartialEq, Eq, Structural)]
pub struct GameLoop {
    /// The swapchain must be rebuilt before the next frame.
    pub swapchain_dirty: bool,
    pub phase: LoopPhase,
}

/// Whether an area of `width` x `height` is empty.
pub open spec fn is_empty_area(width: u32, height: u32) -> bool {
    width == 0 || height == 0
}

/// The state and action after a window event; events for another window,
/// or arriving before the window exists, are ignored.
pub open spec fn loop_on_window_event(
    s: GameLoop,
    has_window: bool,
    for_this_window: bool,
    input: WindowInput,
) -> (GameLoop, LoopAction) {
    if !has_window || !for_this_window {
        (s, LoopAction::Ignore)
    } else {
        match input {
            WindowInput::CloseRequested => (s, LoopAction::Exit),
            WindowInput::Resized { width, height } => {
                let t = GameLoop { swapchain_dirty: true, ..s };
                if is_empty_area(width, height) {
                    (t, LoopAction::Ignore)
                } else {
                    (t, LoopAction::RequestRedraw)
                }
            },
            WindowInput::RedrawRequested { width, height } => if is_empty_area(width, height) {
                (s, LoopAction::Ignore)
            } else if s.swapchain_dirty {
                (GameLoop { phase: LoopPhase::AwaitingRecreate, ..s }, LoopAction::RecreateSwapchain)
            } else {
                (GameLoop { phase: LoopPhase::AwaitingDraw, ..s }, LoopAction::DrawFrame)
            },
            WindowInput::Other => (s, LoopAction::Ignore),
        }
    }
}

/// The state and action after the swapchain rebuild reported `o`.
pub open spec fn loop_on_recreate(s: GameLoop, o: RecreateOutcome) -> (GameLoop, LoopAction) {
    match o {
        RecreateOutcome::Recreated => (
            GameLoop { swapchain_dirty: false, phase: LoopPhase::AwaitingDraw },
            LoopAction::DrawFrame,
        ),
        RecreateOutcome::SkippedZeroSize => (GameLoop { phase: LoopPhase::Idle, ..s }, LoopAction::Ignore),
        RecreateOutcome::Failed => (GameLoop { phase: LoopPhase::Idle, ..s }, LoopAction::ReportErrorAndExit),
    }
}

/// The state and action after the frame reported `o`.
pub open spec fn loop_on_draw(s: GameLoop, o: DrawOutcome) -> (GameLoop, LoopAction) {
    match o {
        DrawOutcome::Rendered => (GameLoop { phase: LoopPhase::Idle, ..s }, LoopAction::RequestRedraw),
        DrawOutcome::NeedsRebuild => (
            GameLoop { swapchain_dirty: true, phase: LoopPhase::Idle },
            LoopAction::RequestRedraw,
        ),
        DrawOutcome::Failed => (GameLoop { phase: LoopPhase::Idle, ..s }, LoopAction::ReportErrorAndExit),
        DrawOutcome::ResourcesMissing => (GameLoop { phase: LoopPhase::Idle, ..s }, LoopAction::Ignore),
    }
}

impl GameLoop {
    /// The state before the first event: a fresh swapchain, nothing pending.
    pub fn new() -> (r: Self)
        ensures
            r == (GameLoop { swapchain_dirty: false, phase: LoopPhase::Idle }),
    {
        GameLoop { swapchain_dirty: false, phase: LoopPhase::Idle }
    }

    /// Handles a window event.
    pub fn on_window_event(&mut self, has_window: bool, for_this_window: bool, input: WindowInput) -> (r: LoopAction)
        requires
            old(self).phase == LoopPhase::Idle,
        ensures
            (*final(self), r) == loop_on_window_event(*old(self), has_window, for_this_window, input),
    {
        if !has_window || !for_this_window {
            return LoopAction::Ignore;
        }
        match input {
            WindowInput::CloseRequested => LoopAction::Exit,
            WindowInput::Resized { width, height } => {
                self.swapchain_dirty = true;
                if width == 0 || height == 0 {
                    LoopAction::Ignore
                } else {
                    LoopAction::RequestRedraw
                }
            },
            WindowInput::RedrawRequested { width, height } => {
                if width == 0 || height == 0 {
                    LoopAction::Ignore
                } else if self.swapchain_dirty {
                    self.phase = LoopPhase::AwaitingRecreate;
                    LoopAction::RecreateSwapchain
                } else {
                    self.phase = LoopPhase::AwaitingDraw;
                    LoopAction::DrawFrame
                }
            },
            WindowInput::Other => LoopAction::Ignore,
        }
    }

    /// Takes how the swapchain rebuild went.
    pub fn on_recreate(&mut self, outcome: RecreateOutcome) -> (r: LoopAction)
        requires
            old(self).phase == LoopPhase::AwaitingRecreate,
        ensures
            (*final(self), r) == loop_on_recreate(*old(self), outcome),
    {
        match outcome {
            RecreateOutcome::Recreated => {
                self.swapchain_dirty = false;
                self.phase = LoopPhase::AwaitingDraw;
                LoopAction::DrawFrame
            },
            RecreateOutcome::SkippedZeroSize => {
                self.phase = LoopPhase::Idle;
                LoopAction::Ignore
            },
            RecreateOutcome::Failed => {
                self.phase = LoopPhase::Idle;
                LoopAction::ReportErrorAndExit
            },
        }
    }

    /// Takes how the frame went.
    pub fn on_draw(&mut self, outcome: DrawOutcome) -> (r: LoopAction)
        requires
            old(self).phase == LoopPhase::AwaitingDraw,
        ensures
            (*final(self), r) == loop_on_draw(*old(self), outcome),
    {
        self.phase = LoopPhase::Idle;
        match outcome {
            DrawOutcome::Rendered => LoopAction::RequestRedraw,
            DrawOutcome::NeedsRebuild => {
                self.swapchain_dirty = true;
                LoopAction::RequestRedraw
            },
            DrawOutcome::Failed => LoopAction::ReportErrorAndExit,
            DrawOutcome::ResourcesMissing => LoopAction::Ignore,
        }
    }
}

/// A redraw of a window without area neither rebuilds the swapchain nor
/// draws; closing the window always exits; a stale swapchain is rebuilt
/// before the next frame is drawn, and only a rebuild makes it fresh again.
pub proof fn law_redraw_policy(s: GameLoop, width: u32, height: u32)
    ensures
        is_empty_area(width, height) ==> loop_on_window_event(
            s, true, true, WindowInput::RedrawRequested { width, height }).1 == LoopAction::Ignore,
        loop_on_window_event(s, true, true, WindowInput::CloseRequested).1 == LoopAction::Exit,
        !is_empty_area(width, height) && s.swapchain_dirty ==> loop_on_window_event(
            s, true, true, WindowInput::RedrawRequested { width, height }).1 == LoopAction::RecreateSwapchain,
        !is_empty_area(width, height) && !s.swapchain_dirty ==> loop_on_window_event(
            s, true, true, WindowInput::RedrawRequested { width, height }).1 == LoopAction::DrawFrame,
        forall|h: bool, t: bool, i: WindowInput| s.swapchain_dirty
            ==> (#[trigger] loop_on_window_event(s, h, t, i)).0.swapchain_dirty,
        forall|o: DrawOutcome| s.swapchain_dirty ==> (#[trigger] loop_on_draw(s, o)).0.swapchain_dirty,
        forall|o: RecreateOutcome| s.swapchain_dirty && !(#[trigger] loop_on_recreate(s, o)).0.swapchain_dirty
            ==> o == RecreateOutcome::Recreated,
{
}

/// Resizing the window always marks the swapchain stale, whatever the new
/// size and whatever the state; a resize with area asks for a redraw, one
/// without area asks for nothing. Events for another window, or before the
/// window exists, change nothing and are ignored.
pub proof fn law_resize_marks_stale(s: GameLoop, width: u32, height: u32, input: WindowInput)
    ensures
        loop_on_window_event(s, true, true, WindowInput::Resized { width, height }).0.swapchain_dirty,
        loop_on_window_event(s, true, true, WindowInput::Resized { width, height }).0.phase == s.phase,
        loop_on_window_event(s, true, true, WindowInput::Resized { width, height }).1 == if width == 0
            || height == 0 {
            LoopAction::Ignore
        } else {
            LoopAction::RequestRedraw
        },
        loop_on_window_event(s, false, true, input) == (s, LoopAction::Ignore),
        loop_on_window_event(s, true, false, input) == (s, LoopAction::Ignore),
        loop_on_window_event(s, true, true, WindowInput::Other) == (s, LoopAction::Ignore),
{
}

/// After a rebuild: a successful one makes the swapchain fresh and draws;
/// one skipped for lack of area does nothing and leaves the swapchain
/// stale; a failed one reports and exits. After a frame: a rendered one
/// asks for the next redraw; one asking for a rebuild marks the swapchain
/// stale and asks for the next redraw; a failed one reports and exits;
/// one without resources does nothing. Each returns to idle but the
/// successful rebuild, which goes on to draw.
pub proof fn law_outcome_handling(s: GameLoop)
    ensures
        loop_on_recreate(s, RecreateOutcome::Recreated) == (
            GameLoop { swapchain_dirty: false, phase: LoopPhase::AwaitingDraw }, LoopAction::DrawFrame),
        loop_on_recreate(s, RecreateOutcome::SkippedZeroSize) == (
            GameLoop { swapchain_dirty: s.swapchain_dirty, phase: LoopPhase::Idle }, LoopAction::Ignore),
        loop_on_recreate(s, RecreateOutcome::Failed) == (
            GameLoop { swapchain_dirty: s.swapchain_dirty, phase: LoopPhase::Idle }, LoopAction::ReportErrorAndExit),
        loop_on_draw(s, DrawOutcome::Rendered) == (
            GameLoop { swapchain_dirty: s.swapchain_dirty, phase: LoopPhase::Idle }, LoopAction::RequestRedraw),
        loop_on_draw(s, DrawOutcome::NeedsRebuild) == (
            GameLoop { swapchain_dirty: true, phase: LoopPhase::Idle }, LoopAction::RequestRedraw),
        loop_on_draw(s, DrawOutcome::Failed) == (
            GameLoop { swapchain_dirty: s.swapchain_dirty, phase: LoopPhase::Idle }, LoopAction::ReportErrorAndExit),
        loop_on_draw(s, DrawOutcome::ResourcesMissing) == (
            GameLoop { swapchain_dirty: s.swapchain_dirty, phase: LoopPhase::Idle }, LoopAction::Ignore),
{
}

/// The rebuild's checks, in order: the window must exist; a window without
/// area skips the rebuild; then the instance, the device, the surface and
/// the old swapchain must exist; with all of them the rebuild goes on.
pub proof fn law_recreate_check_order(i: RecreateInputs)
    ensures
        !i.has_window ==> recreate_check_text(i) == Some("window is not initialized"@),
        i.has_window && (i.width == 0 || i.height == 0) ==> recreate_check_text(i) is None,
        i.has_window && i.width > 0 && i.height > 0 && !i.has_instance ==> recreate_check_text(i)
            == Some("Vulkan instance is not initialized"@),
        i.has_window && i.width > 0 && i.height > 0 && i.has_instance && !i.has_device
            ==> recreate_check_text(i) == Some("Vulkan device is not initialized"@),
        i.has_window && i.width > 0 && i.height > 0 && i.has_instance && i.has_device && !i.has_surface
            ==> recreate_check_text(i) == Some("Vulkan surface is not initialized"@),
        i.has_window && i.width > 0 && i.height > 0 && i.has_instance && i.has_device && i.has_surface
            && !i.has_swapchain ==> recreate_check_text(i) == Some("Vulkan swapchain is not initialized"@),
        i.has_window && i.width > 0 && i.height > 0 && i.has_instance && i.has_device && i.has_surface
            && i.has_swapchain ==> recreate_check_text(i) is None,
{
}

/// A frame that asks for a rebuild makes the next redraw of a window with
/// area rebuild the swapchain, and a successful rebuild goes on to draw.
pub proof fn law_rebuild_follows_stale_frame(s: GameLoop, width: u32, height: u32)
    requires
        !is_empty_area(width, height),
    ensures
        ({
            let after_draw = loop_on_draw(s, DrawOutcome::NeedsRebuild);
            let redraw = loop_on_window_event(after_draw.0, true, true, WindowInput::RedrawRequested { width, height });
            &&& after_draw.1 == LoopAction::RequestRedraw
            &&& redraw.1 == LoopAction::RecreateSwapchain
            &&& loop_on_recreate(redraw.0, RecreateOutcome::Recreated).1 == LoopAction::DrawFrame
            &&& !loop_on_recreate(redraw.0, RecreateOutcome::Recreated).0.swapchain_dirty
        }),
{
}

/// The size of the first swapchain: the window's inner size, each side at
/// least one pixel.
pub fn initial_swapchain_size(width: u32, height: u32) -> (r: Extent2D)
    ensures
        r.width == if width == 0 { 1 } else { width },
        r.height == if height == 0 { 1 } else { height },
{
    Extent2D {
        width: if width == 0 { 1 } else { width },
        height: if height == 0 { 1 } else { height },
    }
}

/// What a swapchain rebuild has to work with.
#[derive(Debug, Clone, Copy, PartialEq, Eq, Structural)]
pub struct RecreateInputs {
    pub has_window: bool,
    /// The window's inner size.
    pub width: u32,
    pub height: u32,
    pub has_instance: bool,
    pub has_device: bool,
    pub has_surface: bool,
    pub has_swapchain: bool,
}

/// The text of the first check of a rebuild that fails, if any: the
/// window, then (for a window with area) the instance, the device, the
/// surface and the old swapchain must exist.
pub open spec fn recreate_check_text(i: RecreateInputs) -> Option<Seq<char>> {
    if !i.has_window {
        Some("window is not initialized"@)
    } else if is_empty_area(i.width, i.height) {
        None
    } else if !i.has_instance {
        Some("Vulkan instance is not initialized"@)
    } else if !i.has_device {
        Some("Vulkan device is not initialized"@)
    } else if !i.has_surface {
        Some("Vulkan surface is not initialized"@)
    } else if !i.has_swapchain {
        Some("Vulkan swapchain is not initialized"@)
    } else {
        None
    }
}

/// Checks what a swapchain rebuild needs: `Ok(true)` to go on, `Ok(false)`
/// when the window has no area (nothing to rebuild), or the error.
pub fn check_recreate(i: RecreateInputs) -> (r: Result<bool, String>)
    ensures
        match r {
            Ok(go_on) => recreate_check_text(i) is None && go_on == !is_empty_area(i.width, i.height),
            Err(e) => recreate_check_text(i) == Some(e@),
        },
{
    if !i.has_window {
        return Err(String::from_str("window is not initialized"));
    }
    if i.width == 0 || i.height == 0 {
        return Ok(false);
    }
    if !i.has_instance {
        return Err(String::from_str("Vulkan instance is not initialized"));
    }
    if !i.has_device {
        return Err(String::from_str("Vulkan device is not initialized"));
    }
    if !i.has_surface {
        return Err(String::from_str("Vulkan surface is not initialized"));
    }
    if !i.has_swapchain {
        return Err(String::from_str("Vulkan swapchain is not initialized"));
    }
    Ok(true)
}

/// A step of the swapchain rebuild that failed.
#[derive(Debug)]
pub enum RecreateFailure {
    /// Waiting for the device to go idle failed with this `VkResult` code.
    WaitIdle(i32),
    Swapchain(VulkanSwapchainError),
    /// The graphics pipeline failed with this text.
    Pipeline(String),
    Frame(VulkanFrameError),
}

impl RecreateFailure {
    /// The text reported for the failed step.
    pub open spec fn text(&self) -> Seq<char> {
        match self {
            RecreateFailure::WaitIdle(code) => "failed waiting for Vulkan device: "@ + vk_result_debug(*code),
            RecreateFailure::Swapchain(e) => "failed recreating swapchain: "@ + e.text(),
            RecreateFailure::Pipeline(e) => "failed recreating graphics pipeline: "@ + e@,
            RecreateFailure::Frame(e) => "failed recreating frame resources: "@ + e.text(),
        }
    }

    /// The text reported for the failed step.
    pub fn message(&self) -> (r: String)
        ensures
            r@ == self.text(),
    {
        match self {
            RecreateFailure::WaitIdle(code) => {
                let mut s = String::from_str("failed waiting for Vulkan device: ");
                let name = vk_result_name(*code);
                s.append(name.as_str());
                s
            },
            RecreateFailure::Swapchain(e) => {
                let mut s = String::from_str("failed recreating swapchain: ");
                let inner = e.message();
                s.append(inner.as_str());
                s
            },
            RecreateFailure::Pipeline(e) => {
                let mut s = String::from_str("failed recreating graphics pipeline: ");
                s.append(e.as_str());
                s
            },
            RecreateFailure::Frame(e) => {
                let mut s = String::from_str("failed recreating frame resources: ");
                let inner = e.message();
                s.append(inner.as_str());
                s
            },
        }
    }
}

/// The text printed when drawing a frame fails.
pub fn rendering_failed_message(error: &VulkanFrameError) -> (r: String)
    ensures
        r@ == "Rendering failed: "@ + error.text(),
{
    let mut s = String::from_str("Rendering failed: ");
    let inner = error.message();
    s.append(inner.as_str());
    s
}

} // verus!
