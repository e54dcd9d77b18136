//! Buffers: uploads through a staging buffer, writes into mapped memory,
//! meshes and the camera's uniform buffer.

use vstd::prelude::*;
use crate::version::{append_decimal, decimal};
use crate::vk::{
    vk_result_debug, vk_result_name, BUFFER_USAGE_INDEX_BUFFER, BUFFER_USAGE_TRANSFER_DST,
    BUFFER_USAGE_TRANSFER_SRC, BUFFER_USAGE_VERTEX_BUFFER, MEMORY_DEVICE_LOCAL,
    MEMORY_HOST_COHERENT, MEMORY_HOST_VISIBLE,
};

verus! {

/// Why a buffer could not be created or written.
#[derive(Debug, Clone, Copy, PartialEq, Eq, Structural)]
pub enum VulkanBufferError {
    /// A Vulkan call failed with this `VkResult` code.
    Vulkan(i32),
    NoSuitableMemoryType,
    EmptyData,
    DataTooLarge { buffer_size: u64, data_size: u64 },
}

impl VulkanBufferError {
    /// The text the error displays.
    pub open spec fn text(&self) -> Seq<char> {
        match self {
            VulkanBufferError::Vulkan(code) => "Vulkan buffer error: "@ + vk_result_debug(*code),
            VulkanBufferError::NoSuitableMemoryType => "no suitable Vulkan memory type found"@,
            VulkanBufferError::EmptyData => "cannot create Vulkan buffer from empty data"@,
            VulkanBufferError::DataTooLarge { buffer_size, data_size } => "buffer upload is too large: "@
                + decimal(*data_size as nat) + " bytes for a "@ + decimal(*buffer_size as nat)
                + "-byte buffer"@,
        }
    }

    /// The text the error displays.
    pub fn message(&self) -> (r: String)
        ensures
            r@ == self.text(),
    {
        match self {
            VulkanBufferError::Vulkan(code) => {
                let mut s = String::from_str("Vulkan buffer error: ");
                let name = vk_result_name(*code);
                s.append(name.as_str());
                s
            },
            VulkanBufferError::NoSuitableMemoryType => String::from_str("no suitable Vulkan memory type found"),
            VulkanBufferError::EmptyData => String::from_str("cannot create Vulkan buffer from empty data"),
            VulkanBufferError::DataTooLarge { buffer_size, data_size } => {
                let mut s = String::from_str("buffer upload is too large: ");
                append_decimal(&mut s, *data_size);
                s.append(" bytes for a ");
                append_decimal(&mut s, *buffer_size);
                s.append("-byte buffer");
                s
            },
        }
    }
}

/// Checks a write of `data_size` bytes into a buffer of `buffer_size`
/// bytes: `Ok(true)` when the bytes are to be copied into the mapped
/// memory, `Ok(false)` when there is nothing to copy.
pub fn check_write(buffer_size: u64, data_size: u64) -> (r: Result<bool, VulkanBufferError>)
    ensures
        data_size > buffer_size ==> r == Err::<bool, VulkanBufferError>(
            VulkanBufferError::DataTooLarge { buffer_size, data_size },
        ),
        data_size <= buffer_size ==> r == Ok::<bool, VulkanBufferError>(data_size > 0),
{
    if data_size > buffer_size {
        return Err(VulkanBufferError::DataTooLarge { buffer_size, data_size });
    }
    Ok(data_size != 0)
}

/// A buffer to create: its size, usage and memory properties (raw flags).
#[derive(Debug, Clone, Copy, PartialEq, Eq, Structural)]
pub struct BufferSpec {
    pub size: u64,
    pub usage: u32,
    pub memory_properties: u32,
}

/// An upload of static data: written into a host-visible staging buffer,
/// then copied into a device-local buffer.
#[derive(Debug, Clone, Copy, PartialEq, Eq, Structural)]
pub struct UploadPlan {
    pub staging: BufferSpec,
    pub destination: BufferSpec,
}

/// The upload plan for `data_size` bytes that end in a buffer of `usage`.
pub open spec fn spec_upload_plan(data_size: u64, usage: u32) -> UploadPlan {
    UploadPlan {
        staging: BufferSpec {
            size: data_size,
            usage: BUFFER_USAGE_TRANSFER_SRC,
            memory_properties: MEMORY_HOST_VISIBLE | MEMORY_HOST_COHERENT,
        },
        destination: BufferSpec {
            size: data_size,
            usage: usage | BUFFER_USAGE_TRANSFER_DST,
            memory_properties: MEMORY_DEVICE_LOCAL,
        },
    }
}

/// Plans the upload of `data_size` bytes into a device-local buffer of
/// `usage`; empty data is refused.
pub fn plan_static_upload(data_size: u64, usage: u32) -> (r: Result<UploadPlan, VulkanBufferError>)
    ensures
        data_size == 0 ==> r == Err::<UploadPlan, VulkanBufferError>(VulkanBufferError::EmptyData),
        data_size > 0 ==> r == Ok::<UploadPlan, VulkanBufferError>(spec_upload_plan(data_size, usage)),
{
    if data_size == 0 {
        return Err(VulkanBufferError::EmptyData);
    }
    Ok(UploadPlan {
        staging: BufferSpec {
            size: data_size,
            usage: BUFFER_USAGE_TRANSFER_SRC,
            memory_properties: MEMORY_HOST_VISIBLE | MEMORY_HOST_COHERENT,
        },
        destination: BufferSpec {
            size: data_size,
            usage: usage | BUFFER_USAGE_TRANSFER_DST,
            memory_properties: MEMORY_DEVICE_LOCAL,
        },
    })
}

/// Plans the upload of vertex data.
pub fn plan_vertex_upload(data_size: u64) -> (r: Result<UploadPlan, VulkanBufferError>)
    ensures
        data_size == 0 ==> r == Err::<UploadPlan, VulkanBufferError>(VulkanBufferError::EmptyData),
        data_size > 0 ==> r == Ok::<UploadPlan, VulkanBufferError>(
            spec_upload_plan(data_size, BUFFER_USAGE_VERTEX_BUFFER),
        ),
{
    plan_static_upload(data_size, BUFFER_USAGE_VERTEX_BUFFER)
}

/// Plans the upload of index data.
pub fn plan_index_upload(data_size: u64) -> (r: Result<UploadPlan, VulkanBufferError>)
    ensures
        data_size == 0 ==> r == Err::<UploadPlan, VulkanBufferError>(VulkanBufferError::EmptyData),
        data_size > 0 ==> r == Ok::<UploadPlan, VulkanBufferError>(
            spec_upload_plan(data_size, BUFFER_USAGE_INDEX_BUFFER),
        ),
{
    plan_static_upload(data_size, BUFFER_USAGE_INDEX_BUFFER)
}

/// The staging buffer accepts the whole upload and can be copied from; the
/// destination has the same size and can both be copied into and used as
/// asked.
pub proof fn law_upload_fits(data_size: u64, usage: u32)
    requires
        data_size > 0,
    ensures
        ({
            let p = spec_upload_plan(data_size, usage);
            &&& p.staging.size == p.destination.size
            &&& p.destination.size == data_size
            &&& p.staging.usage & BUFFER_USAGE_TRANSFER_SRC == BUFFER_USAGE_TRANSFER_SRC
            &&& p.destination.usage & BUFFER_USAGE_TRANSFER_DST == BUFFER_USAGE_TRANSFER_DST
            &&& p.destination.usage & usage == usage
            &&& p.staging.memory_properties & MEMORY_HOST_VISIBLE == MEMORY_HOST_VISIBLE
            &&& p.staging.memory_properties & MEMORY_HOST_COHERENT == MEMORY_HOST_COHERENT
            &&& p.staging.usage == 1u32
            &&& p.staging.memory_properties == 6u32
            &&& p.destination.usage == usage | 2u32
            &&& p.destination.memory_properties == 1u32
        }),
{
    let u = usage;
    assert((u | 2u32) & 2u32 == 2u32) by (bit_vector);
    assert((u | 2u32) & u == u) by (bit_vector);
    assert((2u32 | 4u32) & 2u32 == 2u32) by (bit_vector);
    assert((2u32 | 4u32) & 4u32 == 4u32) by (bit_vector);
    assert(1u32 & 1u32 == 1u32) by (bit_vector);
    assert((2u32 | 4u32) == 6u32) by (bit_vector);
}

/// Why a mesh could not be created.
#[derive(Debug, Clone, Copy, PartialEq, Eq, Structural)]
pub enum VulkanMeshError {
    Buffer(VulkanBufferError),
    TooManyIndices,
}

impl VulkanMeshError {
    /// The text the error displays.
    pub open spec fn text(&self) -> Seq<char> {
        match self {
            VulkanMeshError::Buffer(e) => "Vulkan mesh buffer error: "@ + e.text(),
            VulkanMeshError::TooManyIndices => "mesh contains too many indices"@,
        }
    }

    /// The text the error displays.
    pub fn message(&self) -> (r: String)
        ensures
            r@ == self.text(),
    {
        match self {
            VulkanMeshError::Buffer(e) => {
                let mut s = String::from_str("Vulkan mesh buffer error: ");
                let inner = e.message();
                s.append(inner.as_str());
                s
            },
            VulkanMeshError::TooManyIndices => String::from_str("mesh contains too many indices"),
        }
    }
}

impl From<VulkanBufferError> for VulkanMeshError {
    fn from(value: VulkanBufferError) -> (r: Self) {
        VulkanMeshError::Buffer(value)
    }
}

impl vstd::std_specs::convert::FromSpecImpl<VulkanBufferError> for VulkanMeshError {
    open spec fn obeys_from_spec() -> bool {
        true
    }

    open spec fn from_spec(v: VulkanBufferError) -> Self {
        VulkanMeshError::Buffer(v)
    }
}

/// The index count a mesh of `index_len` indices draws with; the count
/// must fit in a `u32`.
pub fn mesh_index_count(index_len: usize) -> (r: Result<u32, VulkanMeshError>)
    ensures
        index_len <= u32::MAX ==> r == Ok::<u32, VulkanMeshError>(index_len as u32),
        index_len > u32::MAX ==> r == Err::<u32, VulkanMeshError>(VulkanMeshError::TooManyIndices),
{
    if index_len > 0xffff_ffffusize {
        Err(VulkanMeshError::TooManyIndices)
    } else {
        Ok(index_len as u32)
    }
}

/// Why the camera's resources could not be created or updated.
#[derive(Debug, Clone, Copy, PartialEq, Eq, Structural)]
pub enum VulkanCameraError {
    /// A Vulkan call failed with this `VkResult` code.
    Vulkan(i32),
    Buffer(VulkanBufferError),
}

impl VulkanCameraError {
    /// The text the error displays.
    pub open spec fn text(&self) -> Seq<char> {
        match self {
            VulkanCameraError::Vulkan(code) => "Vulkan camera error: "@ + vk_result_debug(*code),
            VulkanCameraError::Buffer(e) => "Vulkan camera buffer error: "@ + e.text(),
        }
    }

    /// The text the error displays.
    pub fn message(&self) -> (r: String)
        ensures
            r@ == self.text(),
    {
        match self {
            VulkanCameraError::Vulkan(code) => {
                let mut s = String::from_str("Vulkan camera error: ");
                let name = vk_result_name(*code);
                s.append(name.as_str());
                s
            },
            VulkanCameraError::Buffer(e) => {
                let mut s = String::from_str("Vulkan camera buffer error: ");
                let inner = e.message();
                s.append(inner.as_str());
                s
            },
        }
    }
}


impl From<VulkanBufferError> for VulkanCameraError {
    fn from(value: VulkanBufferError) -> (r: Self) {
        VulkanCameraError::Buffer(value)
    }
}

impl vstd::std_specs::convert::FromSpecImpl<VulkanBufferError> for VulkanCameraError {
    open spec fn obeys_from_spec() -> bool {
        true
    }

    open spec fn from_spec(v: VulkanBufferError) -> Self {
        VulkanCameraError::Buffer(v)
    }
}

} // verus!
