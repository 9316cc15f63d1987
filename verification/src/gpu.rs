//! The wgpu and image types and calls that the renderer uses for devices,
//! buffers, textures and render passes, with what the library relies on of
//! each of them.

use std::future::Future;
use vstd::prelude::*;

use crate::GpuContext;

verus! {

/// A GPU buffer handle.
#[verifier::external_type_specification]
#[verifier::external_body]
pub struct ExBuffer(wgpu::Buffer);

/// The device that creates resources.
#[verifier::external_type_specification]
#[verifier::external_body]
pub struct ExDevice(wgpu::Device);

/// The queue that uploads data and runs command buffers.
#[verifier::external_type_specification]
#[verifier::external_body]
pub struct ExQueue(wgpu::Queue);

/// An adapter: the physical device a logical device is requested from.
#[verifier::external_type_specification]
#[verifier::external_body]
pub struct ExAdapter(wgpu::Adapter);

/// Alignment in bytes of buffer write and copy offsets and sizes; the value
/// of `wgpu::COPY_BUFFER_ALIGNMENT`.
pub const COPY_BUFFER_ALIGNMENT: u64 = 4;

/// Largest buffer that wgpu's default limits allow
/// (`Limits::default().max_buffer_size`, 256 MiB).
pub const MAX_BUFFER_SIZE: u64 = 268435456;

/// Largest width and height of a 2D texture that wgpu's default limits allow
/// (`Limits::default().max_texture_dimension_2d`).
pub const MAX_TEXTURE_DIMENSION: u32 = 8192;

/// Bit of `wgpu::BufferUsages::COPY_SRC`.
pub const USAGE_COPY_SRC: u32 = 4;
/// Bit of `wgpu::BufferUsages::COPY_DST`.
pub const USAGE_COPY_DST: u32 = 8;
/// Bit of `wgpu::BufferUsages::INDEX`.
pub const USAGE_INDEX: u32 = 16;
/// Bit of `wgpu::BufferUsages::VERTEX`.
pub const USAGE_VERTEX: u32 = 32;
/// Bit of `wgpu::BufferUsages::UNIFORM`.
pub const USAGE_UNIFORM: u32 = 64;
/// Bit of `wgpu::BufferUsages::STORAGE`.
pub const USAGE_STORAGE: u32 = 128;
/// Bit of `wgpu::BufferUsages::QUERY_RESOLVE`.
pub const USAGE_QUERY_RESOLVE: u32 = 512;

/// Usage flags that every device accepts for a buffer that is not mapped: a
/// non-empty combination of copy, index, vertex, uniform, storage and
/// query-resolve use. Left out: the mapping bits (a mapping bit beside other
/// uses is refused), indirect use and the ray-tracing input bits (they need
/// a downlevel flag or a feature that a device may lack), and index use
/// together with vertex, uniform or storage use (that needs a downlevel
/// flag that a device may lack).
pub open spec fn usage_supported(usage: u32) -> bool {
    &&& usage != 0
    &&& usage & !(USAGE_COPY_SRC | USAGE_COPY_DST | USAGE_INDEX | USAGE_VERTEX | USAGE_UNIFORM | USAGE_STORAGE
        | USAGE_QUERY_RESOLVE) == 0
    &&& usage & USAGE_INDEX != 0 ==> usage & (USAGE_VERTEX | USAGE_UNIFORM | USAGE_STORAGE) == 0
}

/// Whether `queue` is the queue requested together with `device`.
pub uninterp spec fn queue_serves(queue: wgpu::Queue, device: wgpu::Device) -> bool;

/// Whether `device` was requested from `adapter`.
pub uninterp spec fn device_of_adapter(device: wgpu::Device, adapter: wgpu::Adapter) -> bool;

/// The `max_buffer_size` limit of a device.
pub uninterp spec fn device_max_buffer_size(device: wgpu::Device) -> u64;

/// The `max_texture_dimension_2d` limit of a device.
pub uninterp spec fn device_max_texture_dimension(device: wgpu::Device) -> u32;

/// `Adapter::request_device` with the default descriptor (no label, no
/// features, wgpu's default limits, no tracing), polled once: on native
/// backends the request is answered at once. The device and its queue, or
/// nothing when the adapter cannot give the default limits or the request
/// is still pending. A device has the limits it was requested with.
#[verifier::external_body]
pub(crate) fn request_device(adapter: &wgpu::Adapter) -> (gpu: Option<GpuContext>)
    ensures
        gpu matches Some(g) ==> {
            &&& queue_serves(g.queue, g.device)
            &&& device_of_adapter(g.device, *adapter)
            &&& device_max_buffer_size(g.device) == MAX_BUFFER_SIZE
            &&& device_max_texture_dimension(g.device) == MAX_TEXTURE_DIMENSION
        },
{
    let mut request = Box::pin(adapter.request_device(&wgpu::DeviceDescriptor::default()));
    let waker = std::task::Waker::noop();
    match request.as_mut().poll(&mut std::task::Context::from_waker(waker)) {
        std::task::Poll::Ready(Ok((device, queue))) => Some(GpuContext { device, queue }),
        std::task::Poll::Ready(Err(_)) => None,
        std::task::Poll::Pending => None,
    }
}

/// `Arc::clone`: another handle to the same context.
#[verifier::external_body]
pub(crate) fn share_context(gpu: &std::sync::Arc<GpuContext>) -> (shared: std::sync::Arc<GpuContext>)
    ensures
        *shared == **gpu,
{
    std::sync::Arc::clone(gpu)
}

/// What a GPU buffer holds, read as native-endian 16-bit halfwords
/// (halfword `i` is bytes `2 * i` and `2 * i + 1`), as later commands on the
/// buffer's queue see it.
pub uninterp spec fn gpu_halfwords(buffer: wgpu::Buffer) -> Seq<u16>;

/// The size in bytes that a GPU buffer was created with.
pub uninterp spec fn gpu_buffer_size(buffer: wgpu::Buffer) -> u64;

/// The usage flags (as `wgpu::BufferUsages` bits) that a GPU buffer was created with.
pub uninterp spec fn gpu_buffer_usage(buffer: wgpu::Buffer) -> u32;

/// Whether a GPU buffer was created by `device`.
pub uninterp spec fn buffer_on(buffer: wgpu::Buffer, device: wgpu::Device) -> bool;

/// Whether a GPU buffer is mapped or being mapped.
pub uninterp spec fn buffer_mapped(buffer: wgpu::Buffer) -> bool;

/// `s` with the halfwords from index `at` on replaced by `data`.
pub open spec fn overwrite(s: Seq<u16>, at: int, data: Seq<u16>) -> Seq<u16> {
    Seq::new(s.len(), |i: int| if at <= i < at + data.len() { data[i - at] } else { s[i] })
}

/// The halfwords of `words`, each word as its low then its high half when
/// `low_first`, and the other way round otherwise: the halfwords a buffer
/// holds after the bytes of the words are stored in the machine's byte order.
pub open spec fn words_as_halfwords(low_first: bool, words: Seq<u32>) -> Seq<u16> {
    Seq::new(
        2 * words.len(),
        |i: int|
            if (i % 2 == 0) == low_first {
                (words[i / 2] % 0x10000) as u16
            } else {
                (words[i / 2] / 0x10000) as u16
            },
    )
}

/// `Device::create_buffer` with an unmapped, unlabelled descriptor of the
/// given size and usage bits. wgpu documents that every buffer starts with all
/// bytes zeroed; creation fails validation (and panics through the default
/// error handler) for sizes over the device limit and for unsupported usages,
/// which `requires` leaves out.
#[verifier::external_body]
pub(crate) fn create_buffer(gpu: &GpuContext, size: u64, usage: u32) -> (buffer: wgpu::Buffer)
    requires
        size <= device_max_buffer_size(gpu.device),
        usage_supported(usage),
    ensures
        gpu_buffer_size(buffer) == size,
        gpu_buffer_usage(buffer) == usage,
        gpu_halfwords(buffer) == Seq::new((size / 2) as nat, |i: int| 0u16),
        buffer_on(buffer, gpu.device),
        !buffer_mapped(buffer),
{
    gpu.device.create_buffer(&wgpu::BufferDescriptor {
        label: None,
        size,
        usage: wgpu::BufferUsages::from_bits_retain(usage),
        mapped_at_creation: false,
    })
}

/// `Buffer::size`: the size the buffer was created with.
#[verifier::external_body]
pub(crate) fn buffer_size(buffer: &wgpu::Buffer) -> (size: u64)
    ensures
        size == gpu_buffer_size(*buffer),
{
    buffer.size()
}

/// `Buffer::usage`, as its bits: the usage the buffer was created with.
#[verifier::external_body]
pub(crate) fn buffer_usage(buffer: &wgpu::Buffer) -> (usage: u32)
    ensures
        usage == gpu_buffer_usage(*buffer),
{
    buffer.usage().bits()
}

/// `Queue::write_buffer_with` of `data.len()` halfwords at byte `offset`,
/// filled through the returned view with the bytes of `data` (reinterpreted
/// in place by `bytemuck::cast_slice`); the write is sent when the view is
/// dropped. wgpu refuses (returns no view, after reporting the error) a
/// write from another device's queue, to a mapped buffer, or one that
/// breaks the alignment, bounds or `COPY_DST` usage; `requires` leaves these
/// out. A view can also be missing when the staging allocation fails, which
/// `requires` cannot rule out and which panics here. The write takes effect
/// for the commands submitted after it, which is what `gpu_halfwords`
/// describes; when that happens in GPU time is not stated.
#[verifier::external_body]
pub(crate) fn write_halfwords(gpu: &GpuContext, buffer: &mut wgpu::Buffer, offset: u64, data: &[u16])
    requires
        queue_serves(gpu.queue, gpu.device),
        buffer_on(*old(buffer), gpu.device),
        !buffer_mapped(*old(buffer)),
        data.len() > 0,
        offset % 4 == 0,
        (2 * data.len()) % 4 == 0,
        offset + 2 * data.len() <= gpu_buffer_size(*old(buffer)),
        gpu_buffer_usage(*old(buffer)) & USAGE_COPY_DST != 0,
    ensures
        gpu_buffer_size(*final(buffer)) == gpu_buffer_size(*old(buffer)),
        gpu_buffer_usage(*final(buffer)) == gpu_buffer_usage(*old(buffer)),
        buffer_on(*final(buffer), gpu.device),
        !buffer_mapped(*final(buffer)),
        gpu_halfwords(*final(buffer)) == overwrite(gpu_halfwords(*old(buffer)), (offset / 2) as int, data@),
{
    let bytes: &[u8] = bytemuck::cast_slice(data);
    let size = wgpu::BufferSize::new(bytes.len() as u64).unwrap();
    let mut view = gpu.queue.write_buffer_with(buffer, offset, size).unwrap();
    view.copy_from_slice(bytes);
}

/// `Queue::write_buffer` of the bytes of `data` (reinterpreted in place by
/// `bytemuck::cast_slice`) at byte `offset`, under the same validation as
/// `write_halfwords`. Each word lands as two halfwords in the machine's byte
/// order, the same for every word; which order that is is not stated.
#[verifier::external_body]
pub(crate) fn write_words(gpu: &GpuContext, buffer: &mut wgpu::Buffer, offset: u64, data: &[u32])
    requires
        queue_serves(gpu.queue, gpu.device),
        buffer_on(*old(buffer), gpu.device),
        !buffer_mapped(*old(buffer)),
        offset % 4 == 0,
        offset + 4 * data.len() <= gpu_buffer_size(*old(buffer)),
        gpu_buffer_usage(*old(buffer)) & USAGE_COPY_DST != 0,
    ensures
        gpu_buffer_size(*final(buffer)) == gpu_buffer_size(*old(buffer)),
        gpu_buffer_usage(*final(buffer)) == gpu_buffer_usage(*old(buffer)),
        buffer_on(*final(buffer), gpu.device),
        !buffer_mapped(*final(buffer)),
        exists|low_first: bool|
            gpu_halfwords(*final(buffer)) == overwrite(
                gpu_halfwords(*old(buffer)),
                (offset / 2) as int,
                #[trigger] words_as_halfwords(low_first, data@),
            ),
{
    gpu.queue.write_buffer(buffer, offset, bytemuck::cast_slice(data));
}

/// `DeviceExt::create_buffer_init` (wgpu's `util` module) with the bytes of
/// `words` (reinterpreted in place by `bytemuck::cast_slice`) as contents and
/// no label: the buffer is created mapped, filled and unmapped. For non-empty
/// contents whose length is a multiple of four the buffer has exactly their
/// size; each word lands as two halfwords in the machine's byte order, the
/// same for every word (which order is not stated).
#[verifier::external_body]
pub(crate) fn create_buffer_init_words(gpu: &GpuContext, words: &[u32], usage: u32) -> (buffer: wgpu::Buffer)
    requires
        words.len() > 0,
        4 * words.len() <= device_max_buffer_size(gpu.device),
        usage_supported(usage),
    ensures
        gpu_buffer_size(buffer) == 4 * words.len(),
        gpu_buffer_usage(buffer) == usage,
        buffer_on(buffer, gpu.device),
        !buffer_mapped(buffer),
        exists|low_first: bool| gpu_halfwords(buffer) == #[trigger] words_as_halfwords(low_first, words@),
{
    wgpu::util::DeviceExt::create_buffer_init(&gpu.device, &wgpu::util::BufferInitDescriptor {
        label: None,
        contents: bytemuck::cast_slice(words),
        usage: wgpu::BufferUsages::from_bits_retain(usage),
    })
}

/// A new buffer of `size` bytes and `usage`, made by `Device::create_buffer`
/// (unmapped, unlabelled, zeroed), into which the first `copy` bytes of
/// `source` are copied by one `CommandEncoder::copy_buffer_to_buffer`,
/// recorded with `Device::create_command_encoder` and handed to
/// `Queue::submit`. The new buffer is distinct from `source`. wgpu panics on
/// unaligned or overrunning copies, missing copy usages, a source on
/// another device or a mapped source, which `requires` leaves out.
#[verifier::external_body]
pub(crate) fn copy_into_new_buffer(gpu: &GpuContext, source: &wgpu::Buffer, size: u64, usage: u32, copy: u64) -> (buffer: wgpu::Buffer)
    requires
        queue_serves(gpu.queue, gpu.device),
        buffer_on(*source, gpu.device),
        !buffer_mapped(*source),
        size <= device_max_buffer_size(gpu.device),
        usage_supported(usage),
        usage & USAGE_COPY_DST != 0,
        gpu_buffer_usage(*source) & USAGE_COPY_SRC != 0,
        copy % 4 == 0,
        copy <= gpu_buffer_size(*source),
        copy <= size,
        gpu_halfwords(*source).len() == gpu_buffer_size(*source) / 2,
    ensures
        gpu_buffer_size(buffer) == size,
        gpu_buffer_usage(buffer) == usage,
        buffer_on(buffer, gpu.device),
        !buffer_mapped(buffer),
        gpu_halfwords(buffer) == overwrite(
            Seq::new((size / 2) as nat, |i: int| 0u16),
            0,
            gpu_halfwords(*source).take((copy / 2) as int),
        ),
{
    let descriptor = wgpu::BufferDescriptor { label: None, size, usage: wgpu::BufferUsages::from_bits_retain(usage), mapped_at_creation: false };
    let buffer = gpu.device.create_buffer(&descriptor);
    let mut encoder = gpu.device.create_command_encoder(&wgpu::CommandEncoderDescriptor { label: None });
    encoder.copy_buffer_to_buffer(source, 0, &buffer, 0, copy);
    gpu.queue.submit(std::iter::once(encoder.finish()));
    buffer
}

/// A bind group: the resources a shader reads.
#[verifier::external_type_specification]
#[verifier::external_body]
pub struct ExBindGroup(wgpu::BindGroup);

/// The layout that bind groups are made for.
#[verifier::external_type_specification]
#[verifier::external_body]
pub struct ExBindGroupLayout(wgpu::BindGroupLayout);

/// A texture sampler.
#[verifier::external_type_specification]
#[verifier::external_body]
pub struct ExSampler(wgpu::Sampler);

/// A GPU texture.
#[verifier::external_type_specification]
#[verifier::external_body]
pub struct ExTexture(wgpu::Texture);

/// A view of a texture.
#[verifier::external_type_specification]
#[verifier::external_body]
pub struct ExTextureView(wgpu::TextureView);

/// A compiled render pipeline.
#[verifier::external_type_specification]
#[verifier::external_body]
pub struct ExRenderPipeline(wgpu::RenderPipeline);

/// A render pass being recorded.
#[verifier::external_type_specification]
#[verifier::external_body]
pub struct ExRenderPass<'a>(wgpu::RenderPass<'a>);

/// A command encoder.
#[verifier::external_type_specification]
#[verifier::external_body]
pub struct ExCommandEncoder(wgpu::CommandEncoder);

/// A command recorded into a render pass, with the objects it binds.
pub enum PassCommand {
    /// `set_pipeline` of this pipeline.
    SetPipeline { pipeline: wgpu::RenderPipeline },
    /// `set_bind_group` of this bind group at the given index.
    SetBindGroup { index: u32, bind_group: wgpu::BindGroup },
    /// `set_vertex_buffer` of the whole of this buffer at `slot`.
    SetVertexBuffer { slot: u32, buffer: wgpu::Buffer },
    /// `set_index_buffer` of the whole of this buffer, with 16-bit indices.
    SetIndexBuffer { buffer: wgpu::Buffer },
    /// `draw_indexed` of the index range, base vertex and instance range given.
    DrawIndexed { first_index: u32, end_index: u32, base_vertex: i32, first_instance: u32, end_instance: u32 },
}

/// The commands recorded so far into a render pass, in order.
pub uninterp spec fn pass_commands(pass: wgpu::RenderPass) -> Seq<PassCommand>;

/// The identity of the command encoder that a render pass was begun on.
pub uninterp spec fn pass_encoder(pass: wgpu::RenderPass) -> int;

/// `RenderPass::set_pipeline`: records the pipeline for the following draws.
#[verifier::external_body]
pub(crate) fn pass_set_pipeline(pass: &mut wgpu::RenderPass, pipeline: &wgpu::RenderPipeline)
    ensures
        pass_commands(*final(pass)) == pass_commands(*old(pass)).push(PassCommand::SetPipeline { pipeline: *pipeline }),
        pass_encoder(*final(pass)) == pass_encoder(*old(pass)),
{
    pass.set_pipeline(pipeline);
}

/// `RenderPass::set_bind_group` with no dynamic offsets: records the bind
/// group at `index`.
#[verifier::external_body]
pub(crate) fn pass_set_bind_group(pass: &mut wgpu::RenderPass, index: u32, bind_group: &wgpu::BindGroup)
    ensures
        pass_commands(*final(pass)) == pass_commands(*old(pass)).push(
            PassCommand::SetBindGroup { index, bind_group: *bind_group },
        ),
        pass_encoder(*final(pass)) == pass_encoder(*old(pass)),
{
    pass.set_bind_group(index, Some(bind_group), &[]);
}

/// `RenderPass::set_vertex_buffer` of `buffer.slice(..)`: records the whole
/// buffer as the vertex buffer at `slot`. wgpu panics on an empty slice,
/// which `requires` leaves out.
#[verifier::external_body]
pub(crate) fn pass_set_vertex_buffer(pass: &mut wgpu::RenderPass, slot: u32, buffer: &wgpu::Buffer)
    requires
        gpu_buffer_size(*buffer) > 0,
    ensures
        pass_commands(*final(pass)) == pass_commands(*old(pass)).push(
            PassCommand::SetVertexBuffer { slot, buffer: *buffer },
        ),
        pass_encoder(*final(pass)) == pass_encoder(*old(pass)),
{
    pass.set_vertex_buffer(slot, buffer.slice(..));
}

/// `RenderPass::set_index_buffer` of `buffer.slice(..)` with
/// `IndexFormat::Uint16`: records the whole buffer as the index buffer.
/// wgpu panics on an empty slice, which `requires` leaves out.
#[verifier::external_body]
pub(crate) fn pass_set_index_buffer(pass: &mut wgpu::RenderPass, buffer: &wgpu::Buffer)
    requires
        gpu_buffer_size(*buffer) > 0,
    ensures
        pass_commands(*final(pass)) == pass_commands(*old(pass)).push(PassCommand::SetIndexBuffer { buffer: *buffer }),
        pass_encoder(*final(pass)) == pass_encoder(*old(pass)),
{
    pass.set_index_buffer(buffer.slice(..), wgpu::IndexFormat::Uint16);
}

/// `RenderPass::draw_indexed(first_index..end_index, base_vertex,
/// first_instance..end_instance)`: records the draw. wgpu counts the indices
/// and instances by subtracting each range's start from its end, so
/// `requires` keeps every start at or below its end.
#[verifier::external_body]
pub(crate) fn pass_draw_indexed(
    pass: &mut wgpu::RenderPass,
    first_index: u32,
    end_index: u32,
    base_vertex: i32,
    first_instance: u32,
    end_instance: u32,
)
    requires
        first_index <= end_index,
        first_instance <= end_instance,
    ensures
        pass_commands(*final(pass)) == pass_commands(*old(pass)).push(
            PassCommand::DrawIndexed { first_index, end_index, base_vertex, first_instance, end_instance },
        ),
        pass_encoder(*final(pass)) == pass_encoder(*old(pass)),
{
    pass.draw_indexed(first_index..end_index, base_vertex, first_instance..end_instance);
}

/// How a sampler treats coordinates outside the texture.
#[verifier::external_type_specification]
#[verifier::external_body]
pub struct ExAddressMode(wgpu::AddressMode);

/// How a sampler filters between texels.
#[verifier::external_type_specification]
#[verifier::external_body]
pub struct ExFilterMode(wgpu::FilterMode);

/// How a sampler filters between mip levels.
#[verifier::external_type_specification]
#[verifier::external_body]
pub struct ExMipmapFilterMode(wgpu::MipmapFilterMode);

/// The format of a texture's texels.
#[verifier::external_type_specification]
#[verifier::external_body]
pub struct ExTextureFormat(wgpu::TextureFormat);

/// The address modes a sampler can use: `wgpu::AddressMode`'s variants of
/// the same names.
pub enum AddressChoice {
    ClampToEdge,
    Repeat,
    MirrorRepeat,
}

/// The filters a sampler can use: the variants of the same names of
/// `wgpu::FilterMode` (for magnifying and minifying) and of
/// `wgpu::MipmapFilterMode` (between mip levels).
pub enum FilterChoice {
    Nearest,
    Linear,
}

/// The texel formats of the library's textures: `wgpu::TextureFormat`'s
/// variants of the same names, four bytes per texel, filterable floats.
pub enum TexelFormat {
    Rgba8UnormSrgb,
    Rgba8Unorm,
}

/// The `wgpu::AddressMode` of an address choice.
pub uninterp spec fn wgpu_address_mode(choice: AddressChoice) -> wgpu::AddressMode;

/// The `wgpu::FilterMode` of a filter choice.
pub uninterp spec fn wgpu_filter_mode(choice: FilterChoice) -> wgpu::FilterMode;

/// The `wgpu::MipmapFilterMode` of a filter choice.
pub uninterp spec fn wgpu_mipmap_filter_mode(choice: FilterChoice) -> wgpu::MipmapFilterMode;

/// The `wgpu::TextureFormat` of a texel format.
pub uninterp spec fn wgpu_texel_format(format: TexelFormat) -> wgpu::TextureFormat;

/// The `wgpu::AddressMode` variant of the same name as `choice`.
#[verifier::external_body]
pub(crate) fn address_mode(choice: AddressChoice) -> (mode: wgpu::AddressMode)
    ensures
        mode == wgpu_address_mode(choice),
{
    match choice {
        AddressChoice::ClampToEdge => wgpu::AddressMode::ClampToEdge,
        AddressChoice::Repeat => wgpu::AddressMode::Repeat,
        AddressChoice::MirrorRepeat => wgpu::AddressMode::MirrorRepeat,
    }
}

/// The `wgpu::FilterMode` variant of the same name as `choice`.
#[verifier::external_body]
pub(crate) fn filter_mode(choice: FilterChoice) -> (mode: wgpu::FilterMode)
    ensures
        mode == wgpu_filter_mode(choice),
{
    match choice {
        FilterChoice::Nearest => wgpu::FilterMode::Nearest,
        FilterChoice::Linear => wgpu::FilterMode::Linear,
    }
}

/// The `wgpu::MipmapFilterMode` variant of the same name as `choice`.
#[verifier::external_body]
pub(crate) fn mipmap_filter_mode(choice: FilterChoice) -> (mode: wgpu::MipmapFilterMode)
    ensures
        mode == wgpu_mipmap_filter_mode(choice),
{
    match choice {
        FilterChoice::Nearest => wgpu::MipmapFilterMode::Nearest,
        FilterChoice::Linear => wgpu::MipmapFilterMode::Linear,
    }
}

/// The `wgpu::TextureFormat` variant of the same name as `format`.
#[verifier::external_body]
pub(crate) fn texel_format(format: TexelFormat) -> (texture_format: wgpu::TextureFormat)
    ensures
        texture_format == wgpu_texel_format(format),
{
    match format {
        TexelFormat::Rgba8UnormSrgb => wgpu::TextureFormat::Rgba8UnormSrgb,
        TexelFormat::Rgba8Unorm => wgpu::TextureFormat::Rgba8Unorm,
    }
}

/// The address mode a sampler was created with, in all three directions.
pub uninterp spec fn sampler_address_mode(sampler: wgpu::Sampler) -> wgpu::AddressMode;

/// The filters a sampler was created with: magnifying, minifying, and
/// between mip levels.
pub uninterp spec fn sampler_filters(sampler: wgpu::Sampler) -> (wgpu::FilterMode, wgpu::FilterMode, wgpu::MipmapFilterMode);

/// Whether a sampler was created by `device`.
pub uninterp spec fn sampler_on(sampler: wgpu::Sampler, device: wgpu::Device) -> bool;

/// `Device::create_sampler` with `address` in all three directions and the
/// given filters; otherwise wgpu's defaults: no label, no comparison
/// function, the full level-of-detail range, no anisotropy, no border colour.
#[verifier::external_body]
pub(crate) fn create_sampler(
    device: &wgpu::Device,
    address: wgpu::AddressMode,
    mag_filter: wgpu::FilterMode,
    min_filter: wgpu::FilterMode,
    mipmap_filter: wgpu::MipmapFilterMode,
) -> (sampler: wgpu::Sampler)
    ensures
        sampler_address_mode(sampler) == address,
        sampler_filters(sampler) == (mag_filter, min_filter, mipmap_filter),
        sampler_on(sampler, *device),
{
    device.create_sampler(&wgpu::SamplerDescriptor {
        address_mode_u: address,
        address_mode_v: address,
        address_mode_w: address,
        mag_filter,
        min_filter,
        mipmap_filter,
        ..Default::default()
    })
}

/// The width and height in texels that a texture was created with.
pub uninterp spec fn gpu_texture_size(texture: wgpu::Texture) -> (u32, u32);

/// The format a texture was created with.
pub uninterp spec fn gpu_texture_format(texture: wgpu::Texture) -> wgpu::TextureFormat;

/// The usage flags (as `wgpu::TextureUsages` bits) a texture was created with.
pub uninterp spec fn gpu_texture_usage(texture: wgpu::Texture) -> u32;

/// Whether a texture was created by `device`.
pub uninterp spec fn texture_on(texture: wgpu::Texture, device: wgpu::Device) -> bool;

/// Bit of `wgpu::TextureUsages::COPY_SRC`.
pub const TEXTURE_USAGE_COPY_SRC: u32 = 1;
/// Bit of `wgpu::TextureUsages::COPY_DST`.
pub const TEXTURE_USAGE_COPY_DST: u32 = 2;
/// Bit of `wgpu::TextureUsages::TEXTURE_BINDING`.
pub const TEXTURE_USAGE_TEXTURE_BINDING: u32 = 4;

/// `Device::create_texture` of a single-sampled 2D texture of `width` by
/// `height` texels with one mip level, labelled `label`, of the given format
/// and usage bits. wgpu rejects empty textures, textures over the device's
/// limit and usages that the format does not support; `requires` keeps the
/// size within the limit and the usage to copies and sampling, which every
/// device supports for the library's formats.
#[verifier::external_body]
pub(crate) fn create_2d_texture(
    device: &wgpu::Device,
    label: &str,
    width: u32,
    height: u32,
    format: wgpu::TextureFormat,
    usage: u32,
) -> (texture: wgpu::Texture)
    requires
        1 <= width <= device_max_texture_dimension(*device),
        1 <= height <= device_max_texture_dimension(*device),
        exists|f: TexelFormat| format == #[trigger] wgpu_texel_format(f),
        usage != 0,
        usage & !(TEXTURE_USAGE_COPY_SRC | TEXTURE_USAGE_COPY_DST | TEXTURE_USAGE_TEXTURE_BINDING) == 0,
    ensures
        gpu_texture_size(texture) == (width, height),
        gpu_texture_format(texture) == format,
        gpu_texture_usage(texture) == usage,
        texture_on(texture, *device),
{
    device.create_texture(&wgpu::TextureDescriptor {
        label: Some(label),
        size: wgpu::Extent3d { width, height, depth_or_array_layers: 1 },
        mip_level_count: 1,
        sample_count: 1,
        dimension: wgpu::TextureDimension::D2,
        format,
        usage: wgpu::TextureUsages::from_bits_retain(usage),
        view_formats: &[],
    })
}

/// Whether a view is the default view (the whole texture, its own format)
/// of `texture`.
pub uninterp spec fn view_of(view: wgpu::TextureView, texture: wgpu::Texture) -> bool;

/// The bytes of a texture's RGBA texels, row by row, as later commands on the
/// queue see them.
pub uninterp spec fn gpu_texels(texture: wgpu::Texture) -> Seq<u8>;

/// `Queue::write_texture` of `pixels` into the whole of mip level 0 of
/// `texture`, read from offset 0 with rows of `bytes_per_row` bytes and
/// `rows_per_image` rows per image. wgpu rejects data shorter than the copy,
/// a copy larger than the texture and a texture of another device, which
/// `requires` leaves out. With rows packed tightly, the texture then holds
/// the first `4 * width * height` bytes of `pixels`, for the commands
/// submitted after the write.
#[verifier::external_body]
pub(crate) fn write_rgba_texture(
    gpu: &GpuContext,
    texture: &mut wgpu::Texture,
    pixels: &[u8],
    bytes_per_row: u32,
    rows_per_image: u32,
    width: u32,
    height: u32,
)
    requires
        queue_serves(gpu.queue, gpu.device),
        texture_on(*old(texture), gpu.device),
        exists|f: TexelFormat| gpu_texture_format(*old(texture)) == #[trigger] wgpu_texel_format(f),
        gpu_texture_usage(*old(texture)) & TEXTURE_USAGE_COPY_DST != 0,
        gpu_texture_size(*old(texture)) == (width, height),
        1 <= height,
        bytes_per_row == 4 * width,
        height <= rows_per_image,
        4 * width * height <= pixels.len(),
    ensures
        gpu_texture_size(*final(texture)) == gpu_texture_size(*old(texture)),
        gpu_texture_format(*final(texture)) == gpu_texture_format(*old(texture)),
        gpu_texture_usage(*final(texture)) == gpu_texture_usage(*old(texture)),
        texture_on(*final(texture), gpu.device),
        gpu_texels(*final(texture)) == pixels@.take(4 * width * height),
{
    gpu.queue.write_texture(
        wgpu::TexelCopyTextureInfo { texture, mip_level: 0, origin: wgpu::Origin3d::ZERO, aspect: wgpu::TextureAspect::All },
        pixels,
        wgpu::TexelCopyBufferLayout { offset: 0, bytes_per_row: Some(bytes_per_row), rows_per_image: Some(rows_per_image) },
        wgpu::Extent3d { width, height, depth_or_array_layers: 1 },
    );
}

/// `Texture::create_view` with the default descriptor: a view of the whole texture.
#[verifier::external_body]
pub(crate) fn create_texture_view(texture: &wgpu::Texture) -> (view: wgpu::TextureView)
    ensures
        view_of(view, *texture),
{
    texture.create_view(&wgpu::TextureViewDescriptor::default())
}

/// Whether a bind group layout was made by `create_texture_layout`: a
/// filterable 2D float texture at binding 0 and a filtering sampler at
/// binding 1, both seen by the fragment stage.
pub uninterp spec fn is_texture_layout(layout: wgpu::BindGroupLayout) -> bool;

/// Whether a bind group layout was created by `device`.
pub uninterp spec fn layout_on(layout: wgpu::BindGroupLayout, device: wgpu::Device) -> bool;

/// `Device::create_bind_group_layout` with, for the fragment stage, a
/// filterable 2D float texture at binding 0 and a filtering sampler at binding 1.
#[verifier::external_body]
pub(crate) fn create_texture_layout(device: &wgpu::Device) -> (layout: wgpu::BindGroupLayout)
    ensures
        is_texture_layout(layout),
        layout_on(layout, *device),
{
    let texture = wgpu::BindingType::Texture {
        sample_type: wgpu::TextureSampleType::Float { filterable: true },
        view_dimension: wgpu::TextureViewDimension::D2,
        multisampled: false,
    };
    let sampler = wgpu::BindingType::Sampler(wgpu::SamplerBindingType::Filtering);
    let stage = wgpu::ShaderStages::FRAGMENT;
    device.create_bind_group_layout(&wgpu::BindGroupLayoutDescriptor {
        label: Some("texture bind group layout"),
        entries: &[
            wgpu::BindGroupLayoutEntry { binding: 0, visibility: stage, ty: texture, count: None },
            wgpu::BindGroupLayoutEntry { binding: 1, visibility: stage, ty: sampler, count: None },
        ],
    })
}

/// Whether `bind_group` was made for `layout` with `view` at binding 0 and
/// `sampler` at binding 1.
pub uninterp spec fn binds(
    bind_group: wgpu::BindGroup,
    layout: wgpu::BindGroupLayout,
    view: wgpu::TextureView,
    sampler: wgpu::Sampler,
) -> bool;

/// `Device::create_bind_group` for `layout` with the texture view at binding
/// 0 and the sampler at binding 1. wgpu rejects a group that does not match
/// its layout or mixes devices; `requires` asks for the texture layout, the
/// default view of a texture that shaders can sample in one of the
/// library's (filterable float) formats, and a sampler (the library's make
/// no comparison), all of `device`.
#[verifier::external_body]
pub(crate) fn create_texture_bind_group(
    device: &wgpu::Device,
    layout: &wgpu::BindGroupLayout,
    texture: &wgpu::Texture,
    view: &wgpu::TextureView,
    sampler: &wgpu::Sampler,
) -> (bind_group: wgpu::BindGroup)
    requires
        is_texture_layout(*layout),
        layout_on(*layout, *device),
        exists|f: TexelFormat| gpu_texture_format(*texture) == #[trigger] wgpu_texel_format(f),
        gpu_texture_usage(*texture) & TEXTURE_USAGE_TEXTURE_BINDING != 0,
        texture_on(*texture, *device),
        view_of(*view, *texture),
        sampler_on(*sampler, *device),
    ensures
        binds(bind_group, *layout, *view, *sampler),
{
    let _ = texture;
    device.create_bind_group(&wgpu::BindGroupDescriptor {
        label: None,
        layout,
        entries: &[
            wgpu::BindGroupEntry { binding: 0, resource: wgpu::BindingResource::TextureView(view) },
            wgpu::BindGroupEntry { binding: 1, resource: wgpu::BindingResource::Sampler(sampler) },
        ],
    })
}

/// What the `image` crate decodes `bytes` into, as RGBA with 8 bits per
/// channel, taking the format from the extension of `path`: the width, the
/// height and the pixels row by row, or nothing when the format is unknown
/// or the bytes do not decode.
pub uninterp spec fn decoded_rgba(bytes: Seq<u8>, path: Seq<char>) -> Option<(u32, u32, Seq<u8>)>;

/// An error of the `image` crate: an unknown format, a failed read or a
/// failed decode.
#[verifier::external_type_specification]
#[verifier::external_body]
pub struct ExImageError(image::ImageError);

/// `image::ImageFormat::from_path` on `path`, then `ImageReader::decode` of
/// `bytes` in that format and `DynamicImage::to_rgba8`: the decoded image
/// as width, height and pixels, whose length `to_rgba8` makes four bytes per
/// pixel; the error of the step that failed otherwise.
#[verifier::external_body]
pub(crate) fn decode_rgba(bytes: &[u8], path: &str) -> (image: Result<(u32, u32, Vec<u8>), image::ImageError>)
    ensures
        match image {
            Ok((width, height, pixels)) => {
                &&& decoded_rgba(bytes@, path@) == Some((width, height, pixels@))
                &&& pixels.len() == 4 * width * height
            },
            Err(_) => decoded_rgba(bytes@, path@) is None,
        },
{
    let format = image::ImageFormat::from_path(path)?;
    let decoded = image::ImageReader::with_format(std::io::Cursor::new(bytes), format).decode()?;
    let rgba = decoded.to_rgba8();
    Ok((rgba.width(), rgba.height(), rgba.into_raw()))
}

} // verus!
