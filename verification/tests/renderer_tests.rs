use renderer::device::VulkanDeviceError;
use renderer::instance::VulkanInitError;
use renderer::pipeline::{decode_shader, PipelineFailure};
use renderer::renderer::{EngineError, EngineStatusDto, RendererError, RendererInfo};

#[test]
fn renderer_info_and_status() {
    let info = RendererInfo::from_device("Test GPU".to_string(), ash::vk::make_api_version(0, 1, 3, 250));
    assert_eq!(info.name, "Vulkan");
    assert_eq!(info.gpu_name, "Test GPU");
    assert_eq!(info.vulkan_api, "1.3.250");
    let status = EngineStatusDto::from_renderer_info(info);
    assert!(status.initialized);
    assert_eq!(status.renderer, "Vulkan");
    assert_eq!(status.gpu_name, "Test GPU");
    assert_eq!(status.vulkan_api, "1.3.250");
}

#[test]
fn renderer_and_engine_messages() {
    let e = RendererError::from(VulkanInitError::NoPhysicalDevices);
    assert_eq!(e.message(), "Vulkan instance error: no Vulkan-capable physical devices found");
    let d = RendererError::from(VulkanDeviceError::NoSuitablePhysicalDevice);
    assert_eq!(d.message(), "Vulkan device error: no suitable Vulkan physical device found");
    let engine = EngineError::from(d);
    assert_eq!(
        engine.message(),
        "renderer initialization failed: Vulkan device error: no suitable Vulkan physical device found"
    );
}

fn module(words: &[u32], big_endian: bool) -> Vec<u8> {
    words
        .iter()
        .flat_map(|w| if big_endian { w.to_be_bytes() } else { w.to_le_bytes() })
        .collect()
}

#[test]
fn shader_decoding() {
    let words = [0x0723_0203, 0x0001_0000, 0x1234_5678];
    assert_eq!(decode_shader(&module(&words, false)).unwrap(), words.to_vec());
    assert_eq!(decode_shader(&module(&words, true)).unwrap(), words.to_vec());
    assert_eq!(
        decode_shader(&[3, 2, 35]),
        Err("failed to read SPIR-V shader: input length not divisible by 4".to_string())
    );
    assert_eq!(
        decode_shader(&[]),
        Err("failed to read SPIR-V shader: input missing SPIR-V magic number".to_string())
    );
    assert_eq!(
        decode_shader(&module(&[1, 2], false)),
        Err("failed to read SPIR-V shader: input missing SPIR-V magic number".to_string())
    );
}

#[test]
fn pipeline_failure_messages() {
    assert_eq!(
        PipelineFailure::ShaderModule(-13).message(),
        format!("failed to create Vulkan shader module: {:?}", ash::vk::Result::from_raw(-13))
    );
    assert_eq!(PipelineFailure::Layout(-1).message(), "failed to create pipeline layout: ERROR_OUT_OF_HOST_MEMORY");
    assert_eq!(PipelineFailure::Pipeline(-2).message(), "failed to create graphics pipeline: ERROR_OUT_OF_DEVICE_MEMORY");
}
