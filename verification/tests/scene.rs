use std::sync::Arc;

use gpu_scene::object::{create_material_sampler, create_texture_layout, Material, MaterialError};
use gpu_scene::scene::{Scene, ONE_F32_BITS};
use gpu_scene::GpuContext;

fn png_bytes(width: u32, height: u32, pixel: [u8; 4]) -> Vec<u8> {
    let pixels: Vec<u8> = (0..width * height).flat_map(|_| pixel).collect();
    let image = image::RgbaImage::from_raw(width, height, pixels).unwrap();
    let mut bytes = std::io::Cursor::new(Vec::new());
    image.write_to(&mut bytes, image::ImageFormat::Png).unwrap();
    bytes.into_inner()
}

fn noop_context() -> Arc<GpuContext> {
    let (device, queue) = wgpu::Device::noop(&wgpu::DeviceDescriptor::default());
    Arc::new(GpuContext { device, queue })
}

#[test]
fn new_scene_is_empty() {
    let gpu = noop_context();
    let scene = Scene::new(gpu);
    assert!(scene.static_vertices.is_empty());
    assert!(scene.indices.is_empty());
    assert!(scene.materials.is_empty());
    assert_eq!(scene.index_count(), 0);
}

#[test]
fn static_objects_get_consecutive_index_ranges() {
    let gpu = noop_context();
    let mut scene = Scene::new(gpu);
    let vertices: Vec<u16> = (0..30).collect();
    assert!(scene.can_add_static_object(vertices.len(), 3));
    let first = scene.add_static_object(&vertices, &[0, 1, 2]);
    assert_eq!(first.start_index, 0);
    assert_eq!(first.num_indices, 3);
    let second = scene.add_static_object(&vertices[0..10], &[2, 1, 0]);
    assert_eq!(second.start_index, 3);
    assert_eq!(second.num_indices, 3);
    assert_eq!(scene.indices, vec![0, 1, 2, 2, 1, 0]);
    assert_eq!(scene.static_vertices.len(), 40);
    assert_eq!(scene.index_count(), 6);
}

#[test]
fn empty_object_cannot_be_added() {
    let gpu = noop_context();
    let scene = Scene::new(gpu);
    assert!(!scene.can_add_static_object(0, 3));
    assert!(!scene.can_add_static_object(10, 0));
}

#[test]
fn scene_materials_are_added() {
    let gpu = noop_context();
    let layout = create_texture_layout(&gpu);
    let mut scene = Scene::new(gpu);
    assert!(scene.add_material("red.png", &png_bytes(2, 2, [255, 0, 0, 255]), &layout).is_ok());
    assert_eq!(scene.materials.len(), 1);
    assert!(matches!(scene.add_material("red.png", b"not an image", &layout), Err(MaterialError::Image(_))));
    assert!(matches!(
        scene.add_material("red.unknown", &png_bytes(2, 2, [255, 0, 0, 255]), &layout),
        Err(MaterialError::Image(_))
    ));
    assert_eq!(scene.materials.len(), 1);
}

#[test]
fn material_renderables_are_numbered() {
    let gpu = noop_context();
    let layout = create_texture_layout(&gpu);
    let sampler = create_material_sampler(&gpu);
    let mut material = match Material::new("tile.png", &png_bytes(3, 2, [0, 0, 0, 255]), &gpu, &layout, &sampler) {
        Ok(material) => material,
        Err(_) => panic!("a 3x2 PNG makes a material"),
    };
    assert_eq!(material.texture.width(), 3);
    assert_eq!(material.texture.height(), 2);
    assert_eq!(material.texture.format(), wgpu::TextureFormat::Rgba8UnormSrgb);
    assert_eq!(material.texture.usage(), wgpu::TextureUsages::TEXTURE_BINDING | wgpu::TextureUsages::COPY_DST);
    assert_eq!(material.texture.mip_level_count(), 1);
    assert_eq!(material.texture.sample_count(), 1);
    let quad: Vec<u16> = (0..32).collect();
    assert_eq!(material.create_renderable(&quad, &[0, 1, 2, 2, 3, 0]), 0);
    assert_eq!(material.create_renderable(&quad, &[0, 1, 2, 2, 3, 0]), 1);
    assert!(material.can_add_instance(1));
    assert!(!material.can_add_instance(2));
    material.add_instance([7; 12], 1);
    material.add_instance([8; 12], 0);
    assert!(material.can_create_renderable(8, 6));
    assert!(!material.can_create_renderable(0, 6));
}

#[test]
fn identity_transform_bits() {
    assert_eq!(1.0f32.to_bits(), ONE_F32_BITS);
    assert_eq!(0.0f32.to_bits(), 0);
}

#[test]
fn scene_and_material_record_into_a_pass() {
    let gpu = noop_context();
    let layout = create_texture_layout(&gpu);
    let mut scene = Scene::new(gpu.clone());
    scene.add_static_object(&[0; 10], &[0, 0, 0]);
    assert!(scene.add_material("tile.png", &png_bytes(1, 1, [1, 2, 3, 4]), &layout).is_ok());
    let target = gpu.device.create_texture(&wgpu::TextureDescriptor {
        label: None,
        size: wgpu::Extent3d { width: 4, height: 4, depth_or_array_layers: 1 },
        mip_level_count: 1,
        sample_count: 1,
        dimension: wgpu::TextureDimension::D2,
        format: wgpu::TextureFormat::Rgba8Unorm,
        usage: wgpu::TextureUsages::RENDER_ATTACHMENT,
        view_formats: &[],
    });
    let view = target.create_view(&wgpu::TextureViewDescriptor::default());
    let mut encoder = gpu.device.create_command_encoder(&wgpu::CommandEncoderDescriptor { label: None });
    {
        let mut pass = encoder.begin_render_pass(&wgpu::RenderPassDescriptor {
            label: None,
            color_attachments: &[Some(wgpu::RenderPassColorAttachment {
                view: &view,
                resolve_target: None,
                depth_slice: None,
                ops: wgpu::Operations { load: wgpu::LoadOp::Clear(wgpu::Color::BLACK), store: wgpu::StoreOp::Store },
            })],
            depth_stencil_attachment: None,
            occlusion_query_set: None,
            timestamp_writes: None,
            multiview_mask: None,
        });
        scene.render(&mut pass);
        scene.materials[0].render(&mut pass);
    }
    assert_eq!(scene.index_count(), 3);
}

#[test]
fn material_wider_than_a_texture_is_refused() {
    let gpu = noop_context();
    let layout = create_texture_layout(&gpu);
    let sampler = create_material_sampler(&gpu);
    let wide = png_bytes(8193, 1, [9, 9, 9, 255]);
    assert!(matches!(Material::new("wide.png", &wide, &gpu, &layout, &sampler), Err(MaterialError::TextureSize)));
    let fits = png_bytes(8192, 1, [9, 9, 9, 255]);
    assert!(Material::new("fits.png", &fits, &gpu, &layout, &sampler).is_ok());
}
