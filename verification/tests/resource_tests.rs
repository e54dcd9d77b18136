use renderer::buffer::{
    check_write, mesh_index_count, plan_index_upload, plan_static_upload, plan_vertex_upload,
    BufferSpec, VulkanBufferError, VulkanCameraError, VulkanMeshError,
};
use renderer::memory::find_memory_type;
use renderer::resources::{
    plan_buffer_copy, plan_image_upload, texture_drop_order, CreationLog, GpuObject, TransferCommand,
};
use renderer::texture::{
    check_rgba8_pixels, checkerboard_pixels, default_checkerboard_pixels, VulkanDepthBufferError,
    VulkanTextureError,
};

#[test]
fn memory_type_lookup() {
    let types = vec![0x1, 0x2 | 0x4, 0x1 | 0x2 | 0x4];
    assert_eq!(find_memory_type(0b111, 0x1, &types), Some(0));
    assert_eq!(find_memory_type(0b110, 0x1, &types), Some(2));
    assert_eq!(find_memory_type(0b111, 0x2 | 0x4, &types), Some(1));
    assert_eq!(find_memory_type(0b001, 0x2, &types), None);
    assert_eq!(find_memory_type(0, 0, &types), None);
    assert_eq!(find_memory_type(u32::MAX, 0, &Vec::new()), None);
    let many = vec![0u32; 31].into_iter().chain([0x8]).collect::<Vec<u32>>();
    assert_eq!(find_memory_type(1 << 31, 0x8, &many), Some(31));
}

#[test]
fn buffer_writes() {
    assert_eq!(check_write(64, 64), Ok(true));
    assert_eq!(check_write(64, 0), Ok(false));
    assert_eq!(
        check_write(16, 64),
        Err(VulkanBufferError::DataTooLarge { buffer_size: 16, data_size: 64 })
    );
}

#[test]
fn static_uploads() {
    assert_eq!(plan_static_upload(0, 0x80), Err(VulkanBufferError::EmptyData));
    let plan = plan_vertex_upload(48).unwrap();
    assert_eq!(plan.staging, BufferSpec { size: 48, usage: 0x1, memory_properties: 0x2 | 0x4 });
    assert_eq!(plan.destination, BufferSpec { size: 48, usage: 0x80 | 0x2, memory_properties: 0x1 });
    let plan = plan_index_upload(6).unwrap();
    assert_eq!(plan.destination.usage, 0x40 | 0x2);
    assert_eq!(plan_index_upload(0), Err(VulkanBufferError::EmptyData));
}

#[test]
fn mesh_index_counts() {
    assert_eq!(mesh_index_count(3), Ok(3));
    assert_eq!(mesh_index_count(u32::MAX as usize), Ok(u32::MAX));
    assert_eq!(mesh_index_count(u32::MAX as usize + 1), Err(VulkanMeshError::TooManyIndices));
}

#[test]
fn rgba8_size_check() {
    assert_eq!(check_rgba8_pixels(4, 4, 64), Ok(64));
    assert_eq!(
        check_rgba8_pixels(4, 4, 63),
        Err(VulkanTextureError::InvalidPixelData { expected: 64, actual: 63 })
    );
    assert_eq!(check_rgba8_pixels(0, 7, 0), Ok(0));
}

#[test]
fn checkerboard_layout() {
    let a = [1, 2, 3, 4];
    let b = [5, 6, 7, 8];
    let pixels = checkerboard_pixels(a, b);
    assert_eq!(pixels.len(), 64);
    for y in 0..4 {
        for x in 0..4 {
            let expected = if (x + y) % 2 == 0 { a } else { b };
            let start = 16 * y + 4 * x;
            assert_eq!(&pixels[start..start + 4], &expected[..]);
        }
    }
    let default = default_checkerboard_pixels();
    assert_eq!(&default[0..8], &[235, 235, 235, 255, 35, 35, 35, 255]);
    assert_eq!(&default[16..20], &[35, 35, 35, 255]);
}

#[test]
fn release_order_reverses_creation() {
    let mut log = CreationLog::new();
    assert!(log.release_order().is_empty());
    log.record(GpuObject::Image);
    log.record(GpuObject::DeviceMemory);
    assert_eq!(log.release_order(), vec![GpuObject::DeviceMemory, GpuObject::Image]);
    log.record(GpuObject::ImageView);
    log.record(GpuObject::Sampler);
    assert_eq!(
        log.release_order(),
        vec![GpuObject::Sampler, GpuObject::ImageView, GpuObject::DeviceMemory, GpuObject::Image]
    );
    assert_eq!(texture_drop_order()[0], GpuObject::DescriptorPool);
    assert_eq!(texture_drop_order()[5], GpuObject::DeviceMemory);
}

#[test]
fn transfer_commands() {
    assert_eq!(
        plan_buffer_copy(256),
        vec![
            TransferCommand::BeginCommandBuffer,
            TransferCommand::CopyBuffer { size: 256 },
            TransferCommand::EndCommandBuffer,
            TransferCommand::Submit,
            TransferCommand::WaitIdle,
        ]
    );
    let upload = plan_image_upload(4, 2);
    assert_eq!(upload.len(), 7);
    assert_eq!(upload[1], TransferCommand::TransitionToTransferDst);
    assert_eq!(upload[2], TransferCommand::CopyBufferToImage { width: 4, height: 2 });
    assert_eq!(upload[3], TransferCommand::TransitionToShaderRead);
}

#[test]
fn resource_error_messages() {
    assert_eq!(VulkanBufferError::Vulkan(-2).message(), "Vulkan buffer error: ERROR_OUT_OF_DEVICE_MEMORY");
    assert_eq!(VulkanBufferError::NoSuitableMemoryType.message(), "no suitable Vulkan memory type found");
    assert_eq!(VulkanBufferError::EmptyData.message(), "cannot create Vulkan buffer from empty data");
    assert_eq!(
        VulkanBufferError::DataTooLarge { buffer_size: 16, data_size: 1024 }.message(),
        "buffer upload is too large: 1024 bytes for a 16-byte buffer"
    );
    assert_eq!(
        VulkanMeshError::Buffer(VulkanBufferError::EmptyData).message(),
        "Vulkan mesh buffer error: cannot create Vulkan buffer from empty data"
    );
    assert_eq!(VulkanMeshError::TooManyIndices.message(), "mesh contains too many indices");
    assert_eq!(VulkanCameraError::Vulkan(-1).message(), "Vulkan camera error: ERROR_OUT_OF_HOST_MEMORY");
    assert_eq!(
        VulkanCameraError::Buffer(VulkanBufferError::NoSuitableMemoryType).message(),
        "Vulkan camera buffer error: no suitable Vulkan memory type found"
    );
    assert_eq!(VulkanTextureError::Vulkan(-4).message(), "Vulkan texture error: ERROR_DEVICE_LOST");
    assert_eq!(
        VulkanTextureError::Buffer(VulkanBufferError::EmptyData).message(),
        "Vulkan texture buffer error: cannot create Vulkan buffer from empty data"
    );
    assert_eq!(
        VulkanTextureError::NoSuitableMemoryType.message(),
        "no suitable Vulkan memory type found for texture"
    );
    assert_eq!(
        VulkanTextureError::InvalidPixelData { expected: 64, actual: 3 }.message(),
        "invalid RGBA texture data: expected 64 bytes, got 3"
    );
    assert_eq!(VulkanDepthBufferError::Vulkan(-2).message(), "Vulkan depth-buffer error: ERROR_OUT_OF_DEVICE_MEMORY");
    assert_eq!(
        VulkanDepthBufferError::NoSuitableMemoryType.message(),
        "no suitable Vulkan memory type found for depth buffer"
    );
    assert_eq!(VulkanMeshError::from(VulkanBufferError::EmptyData), VulkanMeshError::Buffer(VulkanBufferError::EmptyData));
    assert_eq!(VulkanTextureError::from(VulkanBufferError::EmptyData), VulkanTextureError::Buffer(VulkanBufferError::EmptyData));
    assert_eq!(VulkanCameraError::from(VulkanBufferError::EmptyData), VulkanCameraError::Buffer(VulkanBufferError::EmptyData));
}
