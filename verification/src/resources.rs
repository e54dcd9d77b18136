//! The order in which Vulkan objects are released when building a
//! resource fails part-way, and the command sequences of one-time
//! transfers.

use vstd::prelude::*;

verus! {

/// A kind of Vulkan object that a resource owns.
#[derive(Debug, Clone, Copy, PartialEq, Eq, Structural)]
pub enum GpuObject {
    Buffer,
    Image,
    DeviceMemory,
    ImageView,
    Sampler,
    DescriptorSetLayout,
    DescriptorPool,
}

/// The objects created so far while building one resource, in order.
#[derive(Debug)]
pub struct CreationLog {
    created: Vec<GpuObject>,
}

impl CreationLog {
    /// The objects created so far, in order.
    pub closed spec fn created(&self) -> Seq<GpuObject> {
        self.created@
    }

    /// A log of a resource whose building has not started.
    pub fn new() -> (r: Self)
        ensures
            r.created() == Seq::<GpuObject>::empty(),
    {
        CreationLog { created: Vec::new() }
    }

    /// Records that `object` was created.
    pub fn record(&mut self, object: GpuObject)
        ensures
            final(self).created() == old(self).created().push(object),
    {
        self.created.push(object);
    }

    /// The objects to release when building fails now: everything created
    /// so far, the most recent first.
    pub fn release_order(&self) -> (r: Vec<GpuObject>)
        ensures
            r@ == self.created().reverse(),
    {
        let mut r: Vec<GpuObject> = Vec::new();
        let mut i: usize = self.created.len();
        while i > 0
            invariant
                i <= self.created@.len(),
                r@ =~= self.created@.subrange(i as int, self.created@.len() as int).reverse(),
            decreases i,
        {
            i = i - 1;
            r.push(self.created[i]);
            assert(self.created@.subrange(i as int, self.created@.len() as int).reverse() =~= self.created@.subrange(
                (i + 1) as int,
                self.created@.len() as int,
            ).reverse().push(self.created@[i as int]));
        }
        assert(self.created@.subrange(0, self.created@.len() as int) =~= self.created@);
        r
    }
}

/// When building fails, each object created so far is released exactly
/// once, and an object is released before every object created ahead of it.
pub proof fn law_release_reverses_creation(created: Seq<GpuObject>)
    ensures
        created.reverse().len() == created.len(),
        forall|i: int| 0 <= i < created.len() ==> #[trigger] created.reverse()[i] == created[created.len() - 1 - i],
{
}

/// What a texture releases when it is dropped, in order: descriptor pool,
/// descriptor set layout, sampler, view, image, memory.
pub fn texture_drop_order() -> (r: Vec<GpuObject>)
    ensures
        r@ == seq![
            GpuObject::DescriptorPool,
            GpuObject::DescriptorSetLayout,
            GpuObject::Sampler,
            GpuObject::ImageView,
            GpuObject::Image,
            GpuObject::DeviceMemory,
        ],
{
    let mut r = Vec::new();
    r.push(GpuObject::DescriptorPool);
    r.push(GpuObject::DescriptorSetLayout);
    r.push(GpuObject::Sampler);
    r.push(GpuObject::ImageView);
    r.push(GpuObject::Image);
    r.push(GpuObject::DeviceMemory);
    r
}

/// A command of a one-time transfer on the graphics queue.
#[derive(Debug, Clone, Copy, PartialEq, Eq, Structural)]
pub enum TransferCommand {
    BeginCommandBuffer,
    /// Copy `size` bytes from the start of one buffer to the start of another.
    CopyBuffer { size: u64 },
    /// Move the image from undefined to transfer-destination layout.
    TransitionToTransferDst,
    /// Copy the buffer into the whole `width` x `height` image.
    CopyBufferToImage { width: u32, height: u32 },
    /// Move the image from transfer-destination to shader-read layout.
    TransitionToShaderRead,
    EndCommandBuffer,
    /// Submit the command buffer without a fence.
    Submit,
    /// Wait until the graphics queue is idle.
    WaitIdle,
}

/// The commands that copy `size` bytes between two buffers.
pub open spec fn spec_buffer_copy(size: u64) -> Seq<TransferCommand> {
    seq![
        TransferCommand::BeginCommandBuffer,
        TransferCommand::CopyBuffer { size },
        TransferCommand::EndCommandBuffer,
        TransferCommand::Submit,
        TransferCommand::WaitIdle,
    ]
}

/// The commands that copy `size` bytes between two buffers.
pub fn plan_buffer_copy(size: u64) -> (r: Vec<TransferCommand>)
    ensures
        r@ == spec_buffer_copy(size),
{
    let mut r = Vec::new();
    r.push(TransferCommand::BeginCommandBuffer);
    r.push(TransferCommand::CopyBuffer { size });
    r.push(TransferCommand::EndCommandBuffer);
    r.push(TransferCommand::Submit);
    r.push(TransferCommand::WaitIdle);
    r
}

/// The commands that fill a `width` x `height` image from a staging buffer
/// and leave it ready for sampling.
pub open spec fn spec_image_upload(width: u32, height: u32) -> Seq<TransferCommand> {
    seq![
        TransferCommand::BeginCommandBuffer,
        TransferCommand::TransitionToTransferDst,
        TransferCommand::CopyBufferToImage { width, height },
        TransferCommand::TransitionToShaderRead,
        TransferCommand::EndCommandBuffer,
        TransferCommand::Submit,
        TransferCommand::WaitIdle,
    ]
}

/// The commands that fill a `width` x `height` image from a staging buffer
/// and leave it ready for sampling.
pub fn plan_image_upload(width: u32, height: u32) -> (r: Vec<TransferCommand>)
    ensures
        r@ == spec_image_upload(width, height),
{
    let mut r = Vec::new();
    r.push(TransferCommand::BeginCommandBuffer);
    r.push(TransferCommand::TransitionToTransferDst);
    r.push(TransferCommand::CopyBufferToImage { width, height });
    r.push(TransferCommand::TransitionToShaderRead);
    r.push(TransferCommand::EndCommandBuffer);
    r.push(TransferCommand::Submit);
    r.push(TransferCommand::WaitIdle);
    r
}

/// A buffer copy begins the command buffer, copies exactly the requested
/// number of bytes, ends the command buffer, submits it and only then waits
/// for the queue, as its last command.
pub proof fn law_buffer_copy_order(size: u64)
    ensures
        ({
            let s = spec_buffer_copy(size);
            &&& s.len() == 5
            &&& s[0] == TransferCommand::BeginCommandBuffer
            &&& s[1] == (TransferCommand::CopyBuffer { size })
            &&& s[2] == TransferCommand::EndCommandBuffer
            &&& s[3] == TransferCommand::Submit
            &&& s[4] == TransferCommand::WaitIdle
        }),
{
}

/// An image upload begins the command buffer, moves the image to
/// transfer-destination layout, copies the buffer into the whole image,
/// moves it to shader-read layout, ends the command buffer, submits it and
/// only then waits for the queue, as its last command.
pub proof fn law_image_upload_order(width: u32, height: u32)
    ensures
        ({
            let s = spec_image_upload(width, height);
            &&& s.len() == 7
            &&& s[0] == TransferCommand::BeginCommandBuffer
            &&& s[1] == TransferCommand::TransitionToTransferDst
            &&& s[2] == (TransferCommand::CopyBufferToImage { width, height })
            &&& s[3] == TransferCommand::TransitionToShaderRead
            &&& s[4] == TransferCommand::EndCommandBuffer
            &&& s[5] == TransferCommand::Submit
            &&& s[6] == TransferCommand::WaitIdle
        }),
{
}

} // verus!
