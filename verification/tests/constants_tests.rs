use ash::vk;
use renderer::vk as raw;

#[test]
fn raw_values_match_ash() {
    assert_eq!(raw::DEVICE_TYPE_OTHER, vk::PhysicalDeviceType::OTHER.as_raw());
    assert_eq!(raw::DEVICE_TYPE_INTEGRATED_GPU, vk::PhysicalDeviceType::INTEGRATED_GPU.as_raw());
    assert_eq!(raw::DEVICE_TYPE_DISCRETE_GPU, vk::PhysicalDeviceType::DISCRETE_GPU.as_raw());
    assert_eq!(raw::DEVICE_TYPE_VIRTUAL_GPU, vk::PhysicalDeviceType::VIRTUAL_GPU.as_raw());
    assert_eq!(raw::DEVICE_TYPE_CPU, vk::PhysicalDeviceType::CPU.as_raw());
    assert_eq!(raw::QUEUE_GRAPHICS, vk::QueueFlags::GRAPHICS.as_raw());
    assert_eq!(raw::FORMAT_B8G8R8A8_SRGB, vk::Format::B8G8R8A8_SRGB.as_raw());
    assert_eq!(raw::COLOR_SPACE_SRGB_NONLINEAR, vk::ColorSpaceKHR::SRGB_NONLINEAR.as_raw());
    assert_eq!(raw::PRESENT_MODE_IMMEDIATE, vk::PresentModeKHR::IMMEDIATE.as_raw());
    assert_eq!(raw::PRESENT_MODE_MAILBOX, vk::PresentModeKHR::MAILBOX.as_raw());
    assert_eq!(raw::PRESENT_MODE_FIFO, vk::PresentModeKHR::FIFO.as_raw());
    assert_eq!(raw::COMPOSITE_ALPHA_OPAQUE, vk::CompositeAlphaFlagsKHR::OPAQUE.as_raw());
    assert_eq!(raw::COMPOSITE_ALPHA_PRE_MULTIPLIED, vk::CompositeAlphaFlagsKHR::PRE_MULTIPLIED.as_raw());
    assert_eq!(raw::COMPOSITE_ALPHA_POST_MULTIPLIED, vk::CompositeAlphaFlagsKHR::POST_MULTIPLIED.as_raw());
    assert_eq!(raw::COMPOSITE_ALPHA_INHERIT, vk::CompositeAlphaFlagsKHR::INHERIT.as_raw());
    assert_eq!(raw::IMAGE_USAGE_TRANSFER_DST, vk::ImageUsageFlags::TRANSFER_DST.as_raw());
    assert_eq!(raw::IMAGE_USAGE_COLOR_ATTACHMENT, vk::ImageUsageFlags::COLOR_ATTACHMENT.as_raw());
    assert_eq!(raw::BUFFER_USAGE_TRANSFER_SRC, vk::BufferUsageFlags::TRANSFER_SRC.as_raw());
    assert_eq!(raw::BUFFER_USAGE_TRANSFER_DST, vk::BufferUsageFlags::TRANSFER_DST.as_raw());
    assert_eq!(raw::BUFFER_USAGE_UNIFORM_BUFFER, vk::BufferUsageFlags::UNIFORM_BUFFER.as_raw());
    assert_eq!(raw::BUFFER_USAGE_INDEX_BUFFER, vk::BufferUsageFlags::INDEX_BUFFER.as_raw());
    assert_eq!(raw::BUFFER_USAGE_VERTEX_BUFFER, vk::BufferUsageFlags::VERTEX_BUFFER.as_raw());
    assert_eq!(raw::MEMORY_DEVICE_LOCAL, vk::MemoryPropertyFlags::DEVICE_LOCAL.as_raw());
    assert_eq!(raw::MEMORY_HOST_VISIBLE, vk::MemoryPropertyFlags::HOST_VISIBLE.as_raw());
    assert_eq!(raw::MEMORY_HOST_COHERENT, vk::MemoryPropertyFlags::HOST_COHERENT.as_raw());
    assert_eq!(raw::RESULT_ERROR_OUT_OF_DATE, vk::Result::ERROR_OUT_OF_DATE_KHR.as_raw());
}
