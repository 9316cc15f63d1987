use std::future::Future;
use std::sync::Arc;

use gpu_scene::buffer::{GpuBuffer, INITIAL_BUFFER_SIZE};
use gpu_scene::gpu::{
    COPY_BUFFER_ALIGNMENT, MAX_BUFFER_SIZE, MAX_TEXTURE_DIMENSION, TEXTURE_USAGE_COPY_DST, TEXTURE_USAGE_COPY_SRC,
    TEXTURE_USAGE_TEXTURE_BINDING, USAGE_COPY_DST, USAGE_COPY_SRC, USAGE_INDEX, USAGE_VERTEX,
};
use gpu_scene::surface::TEXTURE_USAGE_RENDER_ATTACHMENT;
use gpu_scene::GpuContext;

fn noop_context() -> Arc<GpuContext> {
    let (device, queue) = wgpu::Device::noop(&wgpu::DeviceDescriptor::default());
    Arc::new(GpuContext { device, queue })
}

fn read_back(gpu: &GpuContext, buffer: &wgpu::Buffer) -> Vec<u8> {
    let size = buffer.size();
    let staging = gpu.device.create_buffer(&wgpu::BufferDescriptor {
        label: None,
        size,
        usage: wgpu::BufferUsages::MAP_READ | wgpu::BufferUsages::COPY_DST,
        mapped_at_creation: false,
    });
    let mut encoder = gpu.device.create_command_encoder(&wgpu::CommandEncoderDescriptor { label: None });
    encoder.copy_buffer_to_buffer(buffer, 0, &staging, 0, size);
    gpu.queue.submit(std::iter::once(encoder.finish()));
    staging.map_async(wgpu::MapMode::Read, .., |result| result.unwrap());
    gpu.device.poll(wgpu::PollType::wait_indefinitely()).unwrap();
    let bytes = staging.get_mapped_range(..).unwrap().to_vec();
    bytes
}

fn halfwords(bytes: &[u8]) -> Vec<u16> {
    bytes.chunks(2).map(|pair| u16::from_ne_bytes([pair[0], pair[1]])).collect()
}

#[test]
fn usage_bits_match_wgpu() {
    assert_eq!(USAGE_COPY_SRC, wgpu::BufferUsages::COPY_SRC.bits());
    assert_eq!(USAGE_COPY_DST, wgpu::BufferUsages::COPY_DST.bits());
    assert_eq!(USAGE_INDEX, wgpu::BufferUsages::INDEX.bits());
    assert_eq!(USAGE_VERTEX, wgpu::BufferUsages::VERTEX.bits());
    assert_eq!(COPY_BUFFER_ALIGNMENT, wgpu::COPY_BUFFER_ALIGNMENT);
}

#[test]
fn texture_usage_bits_match_wgpu() {
    assert_eq!(TEXTURE_USAGE_COPY_SRC, wgpu::TextureUsages::COPY_SRC.bits());
    assert_eq!(TEXTURE_USAGE_COPY_DST, wgpu::TextureUsages::COPY_DST.bits());
    assert_eq!(TEXTURE_USAGE_TEXTURE_BINDING, wgpu::TextureUsages::TEXTURE_BINDING.bits());
    assert_eq!(TEXTURE_USAGE_RENDER_ATTACHMENT, wgpu::TextureUsages::RENDER_ATTACHMENT.bits());
}

#[test]
fn default_limits_match_library_bounds() {
    let limits = wgpu::Limits::default();
    assert_eq!(limits.max_buffer_size, MAX_BUFFER_SIZE);
    assert_eq!(limits.max_texture_dimension_2d, MAX_TEXTURE_DIMENSION);
}

#[test]
fn new_buffer_is_empty_with_copy_usages() {
    let gpu = noop_context();
    let buffer = GpuBuffer::new(gpu.clone(), USAGE_INDEX);
    assert_eq!(buffer.bytes_used, 0);
    assert_eq!(buffer.buffer.size(), INITIAL_BUFFER_SIZE);
    assert_eq!(
        buffer.buffer.usage(),
        wgpu::BufferUsages::INDEX | wgpu::BufferUsages::COPY_DST | wgpu::BufferUsages::COPY_SRC
    );
    assert!(read_back(&gpu, &buffer.buffer).iter().all(|b| *b == 0));
}

#[test]
fn append_reads_back_and_grows() {
    let gpu = noop_context();
    let mut buffer = GpuBuffer::new(gpu.clone(), USAGE_INDEX);
    // 3 halfwords: target 8 < 256, so the buffer grows to 512.
    assert!(buffer.can_append_len(3));
    buffer.append(&[1, 2, 3]);
    assert_eq!(buffer.bytes_used, 6);
    assert_eq!(buffer.buffer.size(), 512);
    assert_eq!(buffer.last_index, 3);
    let h = halfwords(&read_back(&gpu, &buffer.buffer));
    assert_eq!(&h[0..4], &[1, 2, 3, 0x4343]);
    // 1 more halfword, starting halfway through a word: resends 3, no padding.
    buffer.append(&[4]);
    assert_eq!(buffer.bytes_used, 8);
    assert_eq!(buffer.buffer.size(), 1024);
    let h = halfwords(&read_back(&gpu, &buffer.buffer));
    assert_eq!(&h[0..4], &[1, 2, 3, 4]);
    assert!(h[4..].iter().all(|x| *x == 0));
}

#[test]
fn append_refused_when_starting_and_ending_mid_word() {
    let gpu = noop_context();
    let mut buffer = GpuBuffer::new(gpu, USAGE_VERTEX);
    buffer.append(&[7]);
    assert!(!buffer.can_append_len(2));
    assert!(buffer.can_append_len(1));
    assert!(buffer.can_append_len(3));
    assert!(!buffer.can_append_len(0));
}

#[test]
fn update_aligned_overwrites_words() {
    let gpu = noop_context();
    let mut buffer = GpuBuffer::new(gpu.clone(), USAGE_VERTEX);
    buffer.append(&[9, 9]);
    buffer.update_aligned(4, &[0x0001_0002, 0xAABB_CCDD]);
    assert_eq!(buffer.bytes_used, 4);
    let bytes = read_back(&gpu, &buffer.buffer);
    assert_eq!(&bytes[0..4], bytemuck::cast_slice::<u16, u8>(&[9, 9]));
    assert_eq!(&bytes[4..12], bytemuck::cast_slice::<u32, u8>(&[0x0001_0002, 0xAABB_CCDD]));
}

fn noop_adapter() -> wgpu::Adapter {
    let mut descriptor = wgpu::InstanceDescriptor::new_without_display_handle();
    descriptor.backends = wgpu::Backends::NOOP;
    descriptor.backend_options.noop = wgpu::NoopBackendOptions::enabled();
    let instance = wgpu::Instance::new(descriptor);
    let mut request = Box::pin(instance.request_adapter(&wgpu::RequestAdapterOptions::default()));
    let mut context = std::task::Context::from_waker(std::task::Waker::noop());
    match request.as_mut().poll(&mut context) {
        std::task::Poll::Ready(Ok(adapter)) => adapter,
        _ => panic!("the noop backend gives an adapter at once"),
    }
}

#[test]
fn requested_device_has_the_default_limits() {
    let adapter = noop_adapter();
    let gpu = match gpu_scene::request_gpu(&adapter) {
        Some(gpu) => gpu,
        None => panic!("the noop adapter gives a device"),
    };
    assert_eq!(gpu.device.limits().max_buffer_size, MAX_BUFFER_SIZE);
    assert_eq!(gpu.device.limits().max_texture_dimension_2d, MAX_TEXTURE_DIMENSION);
    let mut buffer = GpuBuffer::new(Arc::new(gpu), USAGE_VERTEX);
    buffer.append(&[1, 2]);
    assert_eq!(buffer.bytes_used, 4);
}
