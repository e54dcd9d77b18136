//! The graphics pipeline's shaders: decoding SPIR-V, and the texts of the
//! pipeline's failures.

use vstd::prelude::*;
use crate::vk::{vk_result_debug, vk_result_name};

verus! {

/// The SPIR-V magic number, the first word of every module.
pub open spec fn spirv_magic() -> u32 {
    0x0723_0203
}

/// Word `i` of `bytes`, least significant byte first.
pub open spec fn le_word(bytes: Seq<u8>, i: int) -> u32 {
    (bytes[4 * i] + 256 * bytes[4 * i + 1] + 65536 * bytes[4 * i + 2] + 16777216 * bytes[4 * i + 3]) as u32
}

/// Word `i` of `bytes`, most significant byte first.
pub open spec fn be_word(bytes: Seq<u8>, i: int) -> u32 {
    (bytes[4 * i + 3] + 256 * bytes[4 * i + 2] + 65536 * bytes[4 * i + 1] + 16777216 * bytes[4 * i]) as u32
}

/// Whether the first word holds the magic number stored least significant
/// byte first.
pub open spec fn starts_with_le_magic(bytes: Seq<u8>) -> bool {
    bytes.len() >= 4 && bytes[0] == 0x03 && bytes[1] == 0x02 && bytes[2] == 0x23 && bytes[3] == 0x07
}

/// Whether the first word holds the magic number stored most significant
/// byte first.
pub open spec fn starts_with_be_magic(bytes: Seq<u8>) -> bool {
    bytes.len() >= 4 && bytes[0] == 0x07 && bytes[1] == 0x23 && bytes[2] == 0x02 && bytes[3] == 0x03
}

/// SPIR-V words of a shader binary: the byte order is the one in which the
/// first word reads as the magic number.
pub open spec fn spec_read_spv(bytes: Seq<u8>) -> Result<Seq<u32>, Seq<char>> {
    if bytes.len() % 4 != 0 {
        Err("input length not divisible by 4"@)
    } else if starts_with_le_magic(bytes) {
        Ok(Seq::new(bytes.len() / 4, |i: int| le_word(bytes, i)))
    } else if starts_with_be_magic(bytes) {
        Ok(Seq::new(bytes.len() / 4, |i: int| be_word(bytes, i)))
    } else {
        Err("input missing SPIR-V magic number"@)
    }
}

/// Calls `ash::util::read_spv` on a cursor over `bytes`, with the error's
/// text. Its source refuses a length that is not a multiple of four, reads
/// the words in the machine's byte order, swaps every word when the first
/// one reads as the swapped magic number, and then refuses a module whose
/// first word is not the magic number; the cursor's own reads and seeks
/// cannot fail. On either byte order of the machine this gives the words
/// in the order the magic number indicates.
#[verifier::external_body]
fn read_spv(bytes: &[u8]) -> (r: Result<Vec<u32>, String>)
    ensures
        match (r, spec_read_spv(bytes@)) {
            (Ok(words), Ok(spec_words)) => words@ == spec_words,
            (Err(e), Err(spec_text)) => e@ == spec_text,
            _ => false,
        },
{
    ash::util::read_spv(&mut std::io::Cursor::new(bytes)).map_err(|error| error.to_string())
}

/// Decodes a shader binary into the SPIR-V words a shader module is
/// created from.
pub fn decode_shader(bytes: &[u8]) -> (r: Result<Vec<u32>, String>)
    ensures
        match (r, spec_read_spv(bytes@)) {
            (Ok(words), Ok(spec_words)) => words@ == spec_words,
            (Err(e), Err(spec_text)) => e@ == "failed to read SPIR-V shader: "@ + spec_text,
            _ => false,
        },
{
    match read_spv(bytes) {
        Ok(words) => Ok(words),
        Err(e) => {
            let mut s = String::from_str("failed to read SPIR-V shader: ");
            s.append(e.as_str());
            Err(s)
        },
    }
}

/// A step of building the graphics pipeline that Vulkan refused.
#[derive(Debug, Clone, Copy, PartialEq, Eq, Structural)]
pub enum PipelineFailure {
    /// Creating a shader module failed with this `VkResult` code.
    ShaderModule(i32),
    /// Creating the pipeline layout failed with this `VkResult` code.
    Layout(i32),
    /// Creating the pipeline failed with this `VkResult` code.
    Pipeline(i32),
}

impl PipelineFailure {
    /// The text reported for the failure.
    pub open spec fn text(&self) -> Seq<char> {
        match self {
            PipelineFailure::ShaderModule(code) => "failed to create Vulkan shader module: "@ + vk_result_debug(*code),
            PipelineFailure::Layout(code) => "failed to create pipeline layout: "@ + vk_result_debug(*code),
            PipelineFailure::Pipeline(code) => "failed to create graphics pipeline: "@ + vk_result_debug(*code),
        }
    }

    /// The text reported for the failure.
    pub fn message(&self) -> (r: String)
        ensures
            r@ == self.text(),
    {
        let (mut s, code) = match self {
            PipelineFailure::ShaderModule(code) => (String::from_str("failed to create Vulkan shader module: "), *code),
            PipelineFailure::Layout(code) => (String::from_str("failed to create pipeline layout: "), *code),
            PipelineFailure::Pipeline(code) => (String::from_str("failed to create graphics pipeline: "), *code),
        };
        let name = vk_result_name(code);
        s.append(name.as_str());
        s
    }
}

} // verus!
