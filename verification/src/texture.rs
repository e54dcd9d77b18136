//! Texture and depth-buffer data: the checkerboard texture's pixels, the
//! size check of RGBA pixel data, and the errors of both.

use vstd::prelude::*;
use crate::buffer::VulkanBufferError;
use crate::version::{append_decimal, decimal};
use crate::vk::{vk_result_debug, vk_result_name};

verus! {

/// Why a texture could not be created.
#[derive(Debug, Clone, Copy, PartialEq, Eq, Structural)]
pub enum VulkanTextureError {
    /// A Vulkan call failed with this `VkResult` code.
    Vulkan(i32),
    Buffer(VulkanBufferError),
    NoSuitableMemoryType,
    InvalidPixelData { expected: usize, actual: usize },
}

impl VulkanTextureError {
    /// The text the error displays.
    pub open spec fn text(&self) -> Seq<char> {
        match self {
            VulkanTextureError::Vulkan(code) => "Vulkan texture error: "@ + vk_result_debug(*code),
            VulkanTextureError::Buffer(e) => "Vulkan texture buffer error: "@ + e.text(),
            VulkanTextureError::NoSuitableMemoryType => "no suitable Vulkan memory type found for texture"@,
            VulkanTextureError::InvalidPixelData { expected, actual } => "invalid RGBA texture data: expected "@
                + decimal(*expected as nat) + " bytes, got "@ + decimal(*actual as nat),
        }
    }

    /// The text the error displays.
    pub fn message(&self) -> (r: String)
        ensures
            r@ == self.text(),
    {
        match self {
            VulkanTextureError::Vulkan(code) => {
                let mut s = String::from_str("Vulkan texture error: ");
                let name = vk_result_name(*code);
                s.append(name.as_str());
                s
            },
            VulkanTextureError::Buffer(e) => {
                let mut s = String::from_str("Vulkan texture buffer error: ");
                let inner = e.message();
                s.append(inner.as_str());
                s
            },
            VulkanTextureError::NoSuitableMemoryType => String::from_str(
                "no suitable Vulkan memory type found for texture",
            ),
            VulkanTextureError::InvalidPixelData { expected, actual } => {
                let mut s = String::from_str("invalid RGBA texture data: expected ");
                append_decimal(&mut s, *expected as u64);
                s.append(" bytes, got ");
                append_decimal(&mut s, *actual as u64);
                s
            },
        }
    }
}

impl From<VulkanBufferError> for VulkanTextureError {
    fn from(value: VulkanBufferError) -> (r: Self) {
        VulkanTextureError::Buffer(value)
    }
}

impl vstd::std_specs::convert::FromSpecImpl<VulkanBufferError> for VulkanTextureError {
    open spec fn obeys_from_spec() -> bool {
        true
    }

    open spec fn from_spec(v: VulkanBufferError) -> Self {
        VulkanTextureError::Buffer(v)
    }
}

/// The byte size of `width` x `height` RGBA8 pixels.
pub open spec fn rgba8_size(width: u32, height: u32) -> int {
    width * height * 4
}

/// Checks that `len` bytes of pixel data hold exactly `width` x `height`
/// RGBA8 pixels, and returns that size.
pub fn check_rgba8_pixels(width: u32, height: u32, len: usize) -> (r: Result<usize, VulkanTextureError>)
    requires
        rgba8_size(width, height) <= usize::MAX,
    ensures
        len == rgba8_size(width, height) ==> r == Ok::<usize, VulkanTextureError>(len),
        len != rgba8_size(width, height) ==> r == Err::<usize, VulkanTextureError>(
            VulkanTextureError::InvalidPixelData { expected: rgba8_size(width, height) as usize, actual: len },
        ),
{
    let w = width as usize;
    let h = height as usize;
    assert(w * h <= w * h * 4) by (nonlinear_arith)
        requires
            0 <= w,
            0 <= h,
    ;
    let expected = w * h * 4;
    if len != expected {
        return Err(VulkanTextureError::InvalidPixelData { expected, actual: len });
    }
    Ok(len)
}

/// The checkerboard's side, in pixels.
pub const CHECKERBOARD_SIZE: u32 = 4;

/// Byte `k` of the checkerboard's RGBA8 data: pixel `k / 4`, laid out row
/// by row, is `color_a` where column plus row is even, else `color_b`.
pub open spec fn checkerboard_byte(color_a: [u8; 4], color_b: [u8; 4], k: int) -> u8 {
    let p = k / 4;
    let c = k % 4;
    let x = p % 4;
    let y = p / 4;
    if (x + y) % 2 == 0 {
        color_a@[c]
    } else {
        color_b@[c]
    }
}

/// The checkerboard's 4 x 4 RGBA8 pixels.
pub open spec fn spec_checkerboard(color_a: [u8; 4], color_b: [u8; 4]) -> Seq<u8> {
    Seq::new(64, |k: int| checkerboard_byte(color_a, color_b, k))
}

/// The 4 x 4 RGBA8 pixels of a checkerboard of two colors.
pub fn checkerboard_pixels(color_a: [u8; 4], color_b: [u8; 4]) -> (r: Vec<u8>)
    ensures
        r@ == spec_checkerboard(color_a, color_b),
{
    let mut pixels: Vec<u8> = Vec::new();
    let mut y: u32 = 0;
    while y < CHECKERBOARD_SIZE
        invariant
            y <= 4,
            pixels@ =~= Seq::new((16 * y) as nat, |k: int| checkerboard_byte(color_a, color_b, k)),
        decreases 4 - y,
    {
        let mut x: u32 = 0;
        while x < CHECKERBOARD_SIZE
            invariant
                y < 4,
                x <= 4,
                pixels@ =~= Seq::new((16 * y + 4 * x) as nat, |k: int| checkerboard_byte(color_a, color_b, k)),
            decreases 4 - x,
        {
            let color = if (x + y) % 2 == 0 { color_a } else { color_b };
            let ghost base: int = 16 * y + 4 * x;
            let mut c: usize = 0;
            while c < 4
                invariant
                    y < 4,
                    x < 4,
                    c <= 4,
                    base == 16 * y + 4 * x,
                    color == if (x + y) % 2 == 0 { color_a } else { color_b },
                    pixels@ =~= Seq::new((base + c) as nat, |k: int| checkerboard_byte(color_a, color_b, k)),
                decreases 4 - c,
            {
                pixels.push(color[c]);
                proof {
                    let k = base + c;
                    assert(k / 4 == 4 * y + x);
                    assert(k % 4 == c);
                    assert((4 * y + x) % 4 == x);
                    assert((4 * y + x) / 4 == y);
                }
                c = c + 1;
            }
            x = x + 1;
        }
        y = y + 1;
    }
    pixels
}

/// The default checkerboard: light grey and dark grey, both opaque.
pub fn default_checkerboard_pixels() -> (r: Vec<u8>)
    ensures
        r@ == spec_checkerboard([235u8, 235u8, 235u8, 255u8], [35u8, 35u8, 35u8, 255u8]),
{
    checkerboard_pixels([235, 235, 235, 255], [35, 35, 35, 255])
}

/// The checkerboard holds 16 RGBA8 pixels; pixel (x, y) is the first color
/// where x + y is even and the second elsewhere, so neighbours differ.
pub proof fn law_checkerboard_layout(color_a: [u8; 4], color_b: [u8; 4], x: int, y: int, c: int)
    requires
        0 <= x < 4,
        0 <= y < 4,
        0 <= c < 4,
    ensures
        spec_checkerboard(color_a, color_b).len() == rgba8_size(CHECKERBOARD_SIZE, CHECKERBOARD_SIZE),
        spec_checkerboard(color_a, color_b)[16 * y + 4 * x + c] == if (x + y) % 2 == 0 {
            color_a@[c]
        } else {
            color_b@[c]
        },
{
    let k = 16 * y + 4 * x + c;
    assert(k / 4 == 4 * y + x);
    assert(k % 4 == c);
    assert((4 * y + x) % 4 == x);
    assert((4 * y + x) / 4 == y);
}

/// Why a depth buffer could not be created.
#[derive(Debug, Clone, Copy, PartialEq, Eq, Structural)]
pub enum VulkanDepthBufferError {
    /// A Vulkan call failed with this `VkResult` code.
    Vulkan(i32),
    NoSuitableMemoryType,
}

impl VulkanDepthBufferError {
    /// The text the error displays.
    pub open spec fn text(&self) -> Seq<char> {
        match self {
            VulkanDepthBufferError::Vulkan(code) => "Vulkan depth-buffer error: "@ + vk_result_debug(*code),
            VulkanDepthBufferError::NoSuitableMemoryType => "no suitable Vulkan memory type found for depth buffer"@,
        }
    }

    /// The text the error displays.
    pub fn message(&self) -> (r: String)
        ensures
            r@ == self.text(),
    {
        match self {
            VulkanDepthBufferError::Vulkan(code) => {
                let mut s = String::from_str("Vulkan depth-buffer error: ");
                let name = vk_result_name(*code);
                s.append(name.as_str());
                s
            },
            VulkanDepthBufferError::NoSuitableMemoryType => String::from_str(
                "no suitable Vulkan memory type found for depth buffer",
            ),
        }
    }
}

} // verus!
