//! Swapchain configuration: surface format, present mode, extent, image
//! count, composite alpha, image usage and sharing mode.

use vstd::prelude::*;
use crate::device::QueueFamilies;
use crate::surface::VulkanSurfaceError;
use crate::vk::{
    vk_result_debug, vk_result_name, COLOR_SPACE_SRGB_NONLINEAR, COMPOSITE_ALPHA_INHERIT,
    COMPOSITE_ALPHA_OPAQUE, COMPOSITE_ALPHA_POST_MULTIPLIED, COMPOSITE_ALPHA_PRE_MULTIPLIED,
    FORMAT_B8G8R8A8_SRGB, IMAGE_USAGE_COLOR_ATTACHMENT, IMAGE_USAGE_TRANSFER_DST,
    PRESENT_MODE_FIFO, PRESENT_MODE_MAILBOX,
};

verus! {

/// A width and a height in pixels.
#[derive(Debug, Clone, Copy, PartialEq, Eq, Structural)]
pub struct Extent2D {
    pub width: u32,
    pub height: u32,
}

/// A `VkSurfaceFormatKHR` as raw values.
#[derive(Debug, Clone, Copy, PartialEq, Eq, Structural)]
pub struct SurfaceFormat {
    /// The raw `VkFormat`.
    pub format: i32,
    /// The raw `VkColorSpaceKHR`.
    pub color_space: i32,
}

/// What the engine reads of a `VkSurfaceCapabilitiesKHR`.
#[derive(Debug, Clone, Copy, PartialEq, Eq, Structural)]
pub struct SurfaceCapabilities {
    pub min_image_count: u32,
    /// 0 means that there is no maximum.
    pub max_image_count: u32,
    /// A width of `u32::MAX` means that the swapchain decides the extent.
    pub current_extent: Extent2D,
    pub min_image_extent: Extent2D,
    pub max_image_extent: Extent2D,
    /// The raw `VkSurfaceTransformFlagBitsKHR` currently applied.
    pub current_transform: u32,
    /// The raw `VkCompositeAlphaFlagsKHR` the surface supports.
    pub supported_composite_alpha: u32,
    /// The raw `VkImageUsageFlags` the surface supports.
    pub supported_usage_flags: u32,
}

/// How the swapchain images are shared between queue families.
#[derive(Debug, Clone, Copy, PartialEq, Eq, Structural)]
pub enum SharingMode {
    /// One queue family owns the images.
    Exclusive,
    /// The graphics and present families share the images.
    Concurrent { graphics: u32, present: u32 },
}

/// Everything `vkCreateSwapchainKHR` is given besides the surface and the
/// swapchain it replaces.
#[derive(Debug, Clone, Copy, PartialEq, Eq, Structural)]
pub struct SwapchainPlan {
    pub surface_format: SurfaceFormat,
    /// The raw `VkPresentModeKHR`.
    pub present_mode: i32,
    pub extent: Extent2D,
    pub min_image_count: u32,
    pub image_array_layers: u32,
    /// The raw `VkImageUsageFlags` of the images.
    pub image_usage: u32,
    pub pre_transform: u32,
    /// The single raw `VkCompositeAlphaFlagBitsKHR` bit chosen.
    pub composite_alpha: u32,
    pub clipped: bool,
    pub sharing: SharingMode,
}

/// Why a swapchain could not be created.
#[derive(Debug, Clone, Copy, PartialEq, Eq, Structural)]
pub enum VulkanSwapchainError {
    /// A Vulkan call failed with this `VkResult` code.
    Vulkan(i32),
    Surface(VulkanSurfaceError),
    NoSurfaceFormats,
    NoPresentModes,
    NoCompositeAlphaMode,
    UnsupportedImageUsage,
}

impl VulkanSwapchainError {
    /// The text the error displays.
    pub open spec fn text(&self) -> Seq<char> {
        match self {
            VulkanSwapchainError::Vulkan(code) => "Vulkan swapchain error: "@ + vk_result_debug(*code),
            VulkanSwapchainError::Surface(e) => "Vulkan surface error: "@ + e.text(),
            VulkanSwapchainError::NoSurfaceFormats => "surface exposes no usable formats"@,
            VulkanSwapchainError::NoPresentModes => "surface exposes no presentation modes"@,
            VulkanSwapchainError::NoCompositeAlphaMode => "surface exposes no supported composite alpha mode"@,
            VulkanSwapchainError::UnsupportedImageUsage => "surface does not support the required swapchain image usage"@,
        }
    }

    /// The text the error displays.
    pub fn message(&self) -> (r: String)
        ensures
            r@ == self.text(),
    {
        match self {
            VulkanSwapchainError::Vulkan(code) => {
                let mut s = String::from_str("Vulkan swapchain error: ");
                let name = vk_result_name(*code);
                s.append(name.as_str());
                s
            },
            VulkanSwapchainError::Surface(e) => {
                let mut s = String::from_str("Vulkan surface error: ");
                let inner = e.message();
                s.append(inner.as_str());
                s
            },
            VulkanSwapchainError::NoSurfaceFormats => String::from_str("surface exposes no usable formats"),
            VulkanSwapchainError::NoPresentModes => String::from_str("surface exposes no presentation modes"),
            VulkanSwapchainError::NoCompositeAlphaMode => String::from_str(
                "surface exposes no supported composite alpha mode",
            ),
            VulkanSwapchainError::UnsupportedImageUsage => String::from_str(
                "surface does not support the required swapchain image usage",
            ),
        }
    }
}

impl From<VulkanSurfaceError> for VulkanSwapchainError {
    fn from(value: VulkanSurfaceError) -> (r: Self) {
        VulkanSwapchainError::Surface(value)
    }
}

impl vstd::std_specs::convert::FromSpecImpl<VulkanSurfaceError> for VulkanSwapchainError {
    open spec fn obeys_from_spec() -> bool {
        true
    }

    open spec fn from_spec(v: VulkanSurfaceError) -> Self {
        VulkanSwapchainError::Surface(v)
    }
}

/// The format the engine prefers: 8-bit BGRA in sRGB, non-linear sRGB space.
pub open spec fn preferred_format() -> SurfaceFormat {
    SurfaceFormat { format: FORMAT_B8G8R8A8_SRGB, color_space: COLOR_SPACE_SRGB_NONLINEAR }
}

/// The preferred format when the surface offers it, else the first one.
pub open spec fn spec_choose_surface_format(formats: Seq<SurfaceFormat>) -> SurfaceFormat {
    if formats.contains(preferred_format()) {
        preferred_format()
    } else {
        formats[0]
    }
}

/// Chooses the swapchain's surface format among those the surface offers.
pub fn choose_surface_format(formats: &Vec<SurfaceFormat>) -> (r: SurfaceFormat)
    requires
        formats@.len() > 0,
    ensures
        r == spec_choose_surface_format(formats@),
        formats@.contains(r),
{
    let mut i: usize = 0;
    while i < formats.len()
        invariant
            i <= formats@.len(),
            forall|j: int| 0 <= j < i ==> #[trigger] formats@[j] != preferred_format(),
        decreases formats@.len() - i,
    {
        let f = formats[i];
        if f.format == FORMAT_B8G8R8A8_SRGB && f.color_space == COLOR_SPACE_SRGB_NONLINEAR {
            assert(formats@[i as int] == preferred_format());
            return f;
        }
        i = i + 1;
    }
    assert(formats@[0] == formats@[0]);
    formats[0]
}

/// Mailbox when the surface offers it, else FIFO, which every surface supports.
pub open spec fn spec_choose_present_mode(modes: Seq<i32>) -> i32 {
    if modes.contains(PRESENT_MODE_MAILBOX) {
        PRESENT_MODE_MAILBOX
    } else {
        PRESENT_MODE_FIFO
    }
}

/// Chooses the swapchain's present mode among those the surface offers.
pub fn choose_present_mode(modes: &Vec<i32>) -> (r: i32)
    ensures
        r == spec_choose_present_mode(modes@),
{
    let mut i: usize = 0;
    while i < modes.len()
        invariant
            i <= modes@.len(),
            forall|j: int| 0 <= j < i ==> #[trigger] modes@[j] != PRESENT_MODE_MAILBOX,
        decreases modes@.len() - i,
    {
        if modes[i] == PRESENT_MODE_MAILBOX {
            assert(modes@[i as int] == PRESENT_MODE_MAILBOX);
            return PRESENT_MODE_MAILBOX;
        }
        i = i + 1;
    }
    PRESENT_MODE_FIFO
}

/// `value` clamped into `[lo, hi]`, as `u32::clamp` for `lo <= hi`.
pub open spec fn clamp_u32(value: u32, lo: u32, hi: u32) -> u32 {
    if value < lo {
        lo
    } else if value > hi {
        hi
    } else {
        value
    }
}

/// Whether the surface lets the swapchain decide its extent.
pub open spec fn extent_is_free(caps: SurfaceCapabilities) -> bool {
    caps.current_extent.width == u32::MAX
}

/// The surface's current extent when it fixes one, else the requested
/// size clamped into the surface's bounds.
pub open spec fn spec_choose_extent(caps: SurfaceCapabilities, width: u32, height: u32) -> Extent2D {
    if !extent_is_free(caps) {
        caps.current_extent
    } else {
        Extent2D {
            width: clamp_u32(width, caps.min_image_extent.width, caps.max_image_extent.width),
            height: clamp_u32(height, caps.min_image_extent.height, caps.max_image_extent.height),
        }
    }
}

/// Whether the surface's extent bounds are ordered where they are read
/// (`u32::clamp` panics on reversed bounds).
pub open spec fn extent_bounds_ordered(caps: SurfaceCapabilities) -> bool {
    extent_is_free(caps) ==> caps.min_image_extent.width <= caps.max_image_extent.width
        && caps.min_image_extent.height <= caps.max_image_extent.height
}

/// Chooses the swapchain's extent for a window of `width` x `height`.
pub fn choose_extent(caps: &SurfaceCapabilities, width: u32, height: u32) -> (r: Extent2D)
    requires
        extent_bounds_ordered(*caps),
    ensures
        r == spec_choose_extent(*caps, width, height),
        extent_is_free(*caps) ==> caps.min_image_extent.width <= r.width <= caps.max_image_extent.width
            && caps.min_image_extent.height <= r.height <= caps.max_image_extent.height,
{
    if caps.current_extent.width != u32::MAX {
        return caps.current_extent;
    }
    let w = if width < caps.min_image_extent.width {
        caps.min_image_extent.width
    } else if width > caps.max_image_extent.width {
        caps.max_image_extent.width
    } else {
        width
    };
    let h = if height < caps.min_image_extent.height {
        caps.min_image_extent.height
    } else if height > caps.max_image_extent.height {
        caps.max_image_extent.height
    } else {
        height
    };
    Extent2D { width: w, height: h }
}

/// One image more than the minimum, capped by the maximum when there is one.
pub open spec fn spec_choose_image_count(caps: SurfaceCapabilities) -> u32 {
    let count = (caps.min_image_count + 1) as u32;
    if caps.max_image_count > 0 && count > caps.max_image_count {
        caps.max_image_count
    } else {
        count
    }
}

/// Chooses how many images the swapchain asks for.
pub fn choose_image_count(caps: &SurfaceCapabilities) -> (r: u32)
    requires
        caps.min_image_count < u32::MAX,
    ensures
        r == spec_choose_image_count(*caps),
        r <= caps.min_image_count + 1,
        caps.max_image_count > 0 ==> r <= caps.max_image_count,
        caps.max_image_count == 0 || caps.max_image_count > caps.min_image_count ==> r
            == caps.min_image_count + 1,
{
    let mut count = caps.min_image_count + 1;
    if caps.max_image_count > 0 && count > caps.max_image_count {
        count = caps.max_image_count;
    }
    count
}

/// Whether the flags `supported` hold every bit of `bits`.
pub open spec fn has_flags(supported: u32, bits: u32) -> bool {
    supported & bits == bits
}

/// The first of opaque, pre-multiplied, post-multiplied and inherit that
/// the surface supports.
pub open spec fn spec_choose_composite_alpha(supported: u32) -> Option<u32> {
    if has_flags(supported, COMPOSITE_ALPHA_OPAQUE) {
        Some(COMPOSITE_ALPHA_OPAQUE)
    } else if has_flags(supported, COMPOSITE_ALPHA_PRE_MULTIPLIED) {
        Some(COMPOSITE_ALPHA_PRE_MULTIPLIED)
    } else if has_flags(supported, COMPOSITE_ALPHA_POST_MULTIPLIED) {
        Some(COMPOSITE_ALPHA_POST_MULTIPLIED)
    } else if has_flags(supported, COMPOSITE_ALPHA_INHERIT) {
        Some(COMPOSITE_ALPHA_INHERIT)
    } else {
        None
    }
}

/// Chooses the composite alpha mode among those the surface supports.
pub fn choose_composite_alpha(supported: u32) -> (r: Option<u32>)
    ensures
        r == spec_choose_composite_alpha(supported),
        r matches Some(bit) ==> has_flags(supported, bit),
{
    if supported & COMPOSITE_ALPHA_OPAQUE == COMPOSITE_ALPHA_OPAQUE {
        Some(COMPOSITE_ALPHA_OPAQUE)
    } else if supported & COMPOSITE_ALPHA_PRE_MULTIPLIED == COMPOSITE_ALPHA_PRE_MULTIPLIED {
        Some(COMPOSITE_ALPHA_PRE_MULTIPLIED)
    } else if supported & COMPOSITE_ALPHA_POST_MULTIPLIED == COMPOSITE_ALPHA_POST_MULTIPLIED {
        Some(COMPOSITE_ALPHA_POST_MULTIPLIED)
    } else if supported & COMPOSITE_ALPHA_INHERIT == COMPOSITE_ALPHA_INHERIT {
        Some(COMPOSITE_ALPHA_INHERIT)
    } else {
        None
    }
}

/// The image usage every swapchain image needs: color attachment and
/// transfer destination.
pub open spec fn required_image_usage() -> u32 {
    IMAGE_USAGE_COLOR_ATTACHMENT | IMAGE_USAGE_TRANSFER_DST
}

/// Exclusive ownership when one family does both, else concurrent sharing
/// between the graphics and the present family.
pub open spec fn spec_sharing_mode(families: QueueFamilies) -> SharingMode {
    if families.graphics != families.present {
        SharingMode::Concurrent { graphics: families.graphics, present: families.present }
    } else {
        SharingMode::Exclusive
    }
}

/// Chooses how swapchain images are shared between the queue families.
pub fn sharing_mode(families: QueueFamilies) -> (r: SharingMode)
    ensures
        r == spec_sharing_mode(families),
{
    if families.graphics != families.present {
        SharingMode::Concurrent { graphics: families.graphics, present: families.present }
    } else {
        SharingMode::Exclusive
    }
}

/// What planning a swapchain gives for what the surface reports.
pub open spec fn spec_plan_swapchain(
    caps: SurfaceCapabilities,
    formats: Seq<SurfaceFormat>,
    modes: Seq<i32>,
    width: u32,
    height: u32,
    families: QueueFamilies,
) -> Result<SwapchainPlan, VulkanSwapchainError> {
    if formats.len() == 0 {
        Err(VulkanSwapchainError::NoSurfaceFormats)
    } else if modes.len() == 0 {
        Err(VulkanSwapchainError::NoPresentModes)
    } else if spec_choose_composite_alpha(caps.supported_composite_alpha) is None {
        Err(VulkanSwapchainError::NoCompositeAlphaMode)
    } else if !has_flags(caps.supported_usage_flags, required_image_usage()) {
        Err(VulkanSwapchainError::UnsupportedImageUsage)
    } else {
        Ok(SwapchainPlan {
            surface_format: spec_choose_surface_format(formats),
            present_mode: spec_choose_present_mode(modes),
            extent: spec_choose_extent(caps, width, height),
            min_image_count: spec_choose_image_count(caps),
            image_array_layers: 1,
            image_usage: required_image_usage(),
            pre_transform: caps.current_transform,
            composite_alpha: spec_choose_composite_alpha(caps.supported_composite_alpha)->Some_0,
            clipped: true,
            sharing: spec_sharing_mode(families),
        })
    }
}

/// The surface format: B8G8R8A8_SRGB with non-linear sRGB color space when
/// the surface offers exactly that pair (a B8G8R8A8_SRGB format in another
/// color space does not count), else the first format offered.
pub proof fn law_surface_format_choice(formats: Seq<SurfaceFormat>)
    requires
        formats.len() > 0,
    ensures
        (exists|i: int| 0 <= i < formats.len() && #[trigger] formats[i].format == FORMAT_B8G8R8A8_SRGB
            && formats[i].color_space == COLOR_SPACE_SRGB_NONLINEAR) ==> spec_choose_surface_format(formats)
            == (SurfaceFormat { format: FORMAT_B8G8R8A8_SRGB, color_space: COLOR_SPACE_SRGB_NONLINEAR }),
        !(exists|i: int| 0 <= i < formats.len() && #[trigger] formats[i].format == FORMAT_B8G8R8A8_SRGB
            && formats[i].color_space == COLOR_SPACE_SRGB_NONLINEAR) ==> spec_choose_surface_format(formats)
            == formats[0],
{
    if exists|i: int| 0 <= i < formats.len() && #[trigger] formats[i].format == FORMAT_B8G8R8A8_SRGB
        && formats[i].color_space == COLOR_SPACE_SRGB_NONLINEAR {
        let i = choose|i: int| 0 <= i < formats.len() && #[trigger] formats[i].format == FORMAT_B8G8R8A8_SRGB
            && formats[i].color_space == COLOR_SPACE_SRGB_NONLINEAR;
        assert(formats[i] == preferred_format());
    }
    if formats.contains(preferred_format()) {
        let i = choose|i: int| 0 <= i < formats.len() && formats[i] == preferred_format();
        assert(formats[i].format == FORMAT_B8G8R8A8_SRGB && formats[i].color_space == COLOR_SPACE_SRGB_NONLINEAR);
    }
}

/// The present mode: mailbox when offered, else FIFO.
pub proof fn law_present_mode_choice(modes: Seq<i32>)
    ensures
        (exists|i: int| 0 <= i < modes.len() && #[trigger] modes[i] == PRESENT_MODE_MAILBOX)
            ==> spec_choose_present_mode(modes) == PRESENT_MODE_MAILBOX,
        !(exists|i: int| 0 <= i < modes.len() && #[trigger] modes[i] == PRESENT_MODE_MAILBOX)
            ==> spec_choose_present_mode(modes) == PRESENT_MODE_FIFO,
{
}

/// The extent: the surface's current extent when it fixes one; else each
/// side is the requested one when within the surface's bounds, the minimum
/// when below, the maximum when above.
pub proof fn law_extent_choice(caps: SurfaceCapabilities, width: u32, height: u32)
    ensures
        caps.current_extent.width != u32::MAX ==> spec_choose_extent(caps, width, height) == caps.current_extent,
        caps.current_extent.width == u32::MAX ==> {
            let e = spec_choose_extent(caps, width, height);
            &&& (caps.min_image_extent.width <= width <= caps.max_image_extent.width ==> e.width == width)
            &&& (width < caps.min_image_extent.width ==> e.width == caps.min_image_extent.width)
            &&& (width > caps.max_image_extent.width && caps.min_image_extent.width <= caps.max_image_extent.width
                ==> e.width == caps.max_image_extent.width)
            &&& (caps.min_image_extent.height <= height <= caps.max_image_extent.height ==> e.height == height)
            &&& (height < caps.min_image_extent.height ==> e.height == caps.min_image_extent.height)
            &&& (height > caps.max_image_extent.height && caps.min_image_extent.height
                <= caps.max_image_extent.height ==> e.height == caps.max_image_extent.height)
        },
{
}

/// The image count: one more than the surface's minimum, lowered to the
/// maximum when there is one (a maximum of 0) and it is smaller.
pub proof fn law_image_count_choice(caps: SurfaceCapabilities)
    requires
        caps.min_image_count < u32::MAX,
    ensures
        caps.max_image_count == 0 ==> spec_choose_image_count(caps) == caps.min_image_count + 1,
        caps.max_image_count > 0 && caps.min_image_count + 1 <= caps.max_image_count
            ==> spec_choose_image_count(caps) == caps.min_image_count + 1,
        caps.max_image_count > 0 && caps.min_image_count + 1 > caps.max_image_count
            ==> spec_choose_image_count(caps) == caps.max_image_count,
{
}

/// The composite alpha: opaque when supported, else pre-multiplied, else
/// post-multiplied, else inherit; none when the surface supports none of
/// the four.
pub proof fn law_composite_alpha_choice(supported: u32)
    ensures
        supported & 1u32 == 1u32 ==> spec_choose_composite_alpha(supported) == Some(1u32),
        supported & 1u32 != 1u32 && supported & 2u32 == 2u32 ==> spec_choose_composite_alpha(supported)
            == Some(2u32),
        supported & 1u32 != 1u32 && supported & 2u32 != 2u32 && supported & 4u32 == 4u32
            ==> spec_choose_composite_alpha(supported) == Some(4u32),
        supported & 1u32 != 1u32 && supported & 2u32 != 2u32 && supported & 4u32 != 4u32 && supported & 8u32
            == 8u32 ==> spec_choose_composite_alpha(supported) == Some(8u32),
        supported & 15u32 == 0u32 ==> spec_choose_composite_alpha(supported) is None,
{
    assert(supported & 15u32 == 0u32 ==> supported & 1u32 != 1u32 && supported & 2u32 != 2u32
        && supported & 4u32 != 4u32 && supported & 8u32 != 8u32) by (bit_vector);
}

/// Exclusive images when graphics and presentation share a family; else
/// images shared concurrently between exactly those two families.
pub proof fn law_sharing_choice(families: QueueFamilies)
    ensures
        families.graphics == families.present ==> spec_sharing_mode(families) == SharingMode::Exclusive,
        families.graphics != families.present ==> spec_sharing_mode(families) == (SharingMode::Concurrent {
            graphics: families.graphics,
            present: families.present,
        }),
{
}

/// Which error planning reports, in order: no formats, then no present
/// modes, then no supported composite alpha, then missing image usage
/// (color attachment and transfer destination); a plan that succeeds has
/// one image layer, that usage, clipping on, and the surface's current
/// transform.
pub proof fn law_plan_errors_and_fixed_fields(
    caps: SurfaceCapabilities,
    formats: Seq<SurfaceFormat>,
    modes: Seq<i32>,
    width: u32,
    height: u32,
    families: QueueFamilies,
)
    ensures
        formats.len() == 0 ==> spec_plan_swapchain(caps, formats, modes, width, height, families)
            == Err::<SwapchainPlan, VulkanSwapchainError>(VulkanSwapchainError::NoSurfaceFormats),
        formats.len() > 0 && modes.len() == 0 ==> spec_plan_swapchain(caps, formats, modes, width, height, families)
            == Err::<SwapchainPlan, VulkanSwapchainError>(VulkanSwapchainError::NoPresentModes),
        formats.len() > 0 && modes.len() > 0 && caps.supported_composite_alpha & 15u32 == 0u32
            ==> spec_plan_swapchain(caps, formats, modes, width, height, families)
            == Err::<SwapchainPlan, VulkanSwapchainError>(VulkanSwapchainError::NoCompositeAlphaMode),
        formats.len() > 0 && modes.len() > 0 && caps.supported_composite_alpha & 15u32 != 0u32
            && caps.supported_usage_flags & 0x12u32 != 0x12u32 ==> spec_plan_swapchain(
            caps, formats, modes, width, height, families)
            == Err::<SwapchainPlan, VulkanSwapchainError>(VulkanSwapchainError::UnsupportedImageUsage),
        spec_plan_swapchain(caps, formats, modes, width, height, families) matches Ok(p) ==> {
            &&& p.image_array_layers == 1
            &&& p.image_usage == 0x12u32
            &&& p.clipped
            &&& p.pre_transform == caps.current_transform
            &&& p.surface_format == spec_choose_surface_format(formats)
            &&& p.present_mode == spec_choose_present_mode(modes)
            &&& p.extent == spec_choose_extent(caps, width, height)
            &&& p.min_image_count == spec_choose_image_count(caps)
            &&& Some(p.composite_alpha) == spec_choose_composite_alpha(caps.supported_composite_alpha)
            &&& p.sharing == spec_sharing_mode(families)
        },
{
    let sup = caps.supported_composite_alpha;
    assert(sup & 15u32 == 0u32 ==> sup & 1u32 != 1u32 && sup & 2u32 != 2u32 && sup & 4u32 != 4u32
        && sup & 8u32 != 8u32) by (bit_vector);
    assert(sup & 15u32 != 0u32 ==> sup & 1u32 == 1u32 || sup & 2u32 == 2u32 || sup & 4u32 == 4u32
        || sup & 8u32 == 8u32) by (bit_vector);
    assert((0x10u32 | 0x2u32) == 0x12u32) by (bit_vector);
}

/// A planned swapchain only asks for what the surface supports: one of
/// its formats, one of its present modes or FIFO, an extent inside its
/// bounds (or its fixed extent), no more images than its maximum, a
/// supported composite alpha bit and supported image usage; the images are
/// shared exactly when graphics and presentation use different families.
pub proof fn law_plan_respects_surface(
    caps: SurfaceCapabilities,
    formats: Seq<SurfaceFormat>,
    modes: Seq<i32>,
    width: u32,
    height: u32,
    families: QueueFamilies,
)
    ensures
        spec_plan_swapchain(caps, formats, modes, width, height, families) matches Ok(p) ==> {
            &&& formats.contains(p.surface_format)
            &&& modes.contains(p.present_mode) || p.present_mode == PRESENT_MODE_FIFO
            &&& (!extent_is_free(caps) ==> p.extent == caps.current_extent)
            &&& (extent_is_free(caps) && extent_bounds_ordered(caps) ==> caps.min_image_extent.width <= p.extent.width
                <= caps.max_image_extent.width && caps.min_image_extent.height <= p.extent.height
                <= caps.max_image_extent.height)
            &&& (caps.max_image_count > 0 ==> p.min_image_count <= caps.max_image_count)
            &&& has_flags(caps.supported_composite_alpha, p.composite_alpha)
            &&& has_flags(caps.supported_usage_flags, p.image_usage)
            &&& (p.sharing is Concurrent <==> families.graphics != families.present)
        },
        spec_plan_swapchain(caps, formats, modes, width, height, families) is Err <==> formats.len() == 0
            || modes.len() == 0 || spec_choose_composite_alpha(caps.supported_composite_alpha) is None
            || !has_flags(caps.supported_usage_flags, required_image_usage()),
{
    if formats.len() > 0 {
        assert(formats[0] == formats[0]);
    }
}

/// Plans a swapchain for a window of `width` x `height` from the surface's
/// capabilities, formats and present modes, as queried for the device.
pub fn plan_swapchain(
    caps: &SurfaceCapabilities,
    formats: &Vec<SurfaceFormat>,
    modes: &Vec<i32>,
    width: u32,
    height: u32,
    families: QueueFamilies,
) -> (r: Result<SwapchainPlan, VulkanSwapchainError>)
    requires
        formats@.len() > 0 && modes@.len() > 0 ==> caps.min_image_count < u32::MAX
            && extent_bounds_ordered(*caps),
    ensures
        r == spec_plan_swapchain(*caps, formats@, modes@, width, height, families),
{
    if formats.len() == 0 {
        return Err(VulkanSwapchainError::NoSurfaceFormats);
    }
    if modes.len() == 0 {
        return Err(VulkanSwapchainError::NoPresentModes);
    }
    let surface_format = choose_surface_format(formats);
    let present_mode = choose_present_mode(modes);
    let extent = choose_extent(caps, width, height);
    let image_count = choose_image_count(caps);
    let composite_alpha = match choose_composite_alpha(caps.supported_composite_alpha) {
        Some(bit) => bit,
        None => {
            return Err(VulkanSwapchainError::NoCompositeAlphaMode);
        },
    };
    let required_usage = IMAGE_USAGE_COLOR_ATTACHMENT | IMAGE_USAGE_TRANSFER_DST;
    if caps.supported_usage_flags & required_usage != required_usage {
        return Err(VulkanSwapchainError::UnsupportedImageUsage);
    }
    Ok(SwapchainPlan {
        surface_format,
        present_mode,
        extent,
        min_image_count: image_count,
        image_array_layers: 1,
        image_usage: required_usage,
        pre_transform: caps.current_transform,
        composite_alpha,
        clipped: true,
        sharing: sharing_mode(families),
    })
}

} // verus!
