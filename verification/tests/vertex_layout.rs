use gpu_scene::object::{TEXTURE_VERTEX_SIZE, TRANSFORM_HALFWORDS};
use gpu_scene::vertex::{coloured_vertex_layout, texture_vertex_layout, transform_layout, AttributeFormat};

#[test]
fn coloured_vertices_are_a_position_and_a_colour() {
    let layout = coloured_vertex_layout();
    assert_eq!(layout.array_stride, 20);
    assert!(!layout.per_instance);
    assert_eq!(layout.attributes.len(), 2);
    assert!(matches!(layout.attributes[0].format, AttributeFormat::Float32x2));
    assert_eq!((layout.attributes[0].offset, layout.attributes[0].shader_location), (0, 0));
    assert!(matches!(layout.attributes[1].format, AttributeFormat::Float32x3));
    assert_eq!((layout.attributes[1].offset, layout.attributes[1].shader_location), (8, 1));
}

#[test]
fn textured_vertices_are_a_position_and_coordinates() {
    let layout = texture_vertex_layout();
    assert_eq!(layout.array_stride, TEXTURE_VERTEX_SIZE as u64);
    assert_eq!(layout.array_stride, 16);
    assert!(!layout.per_instance);
    let places: Vec<(u64, u32)> = layout.attributes.iter().map(|a| (a.offset, a.shader_location)).collect();
    assert_eq!(places, vec![(0, 0), (8, 1)]);
    assert!(layout.attributes.iter().all(|a| matches!(a.format, AttributeFormat::Float32x2)));
}

#[test]
fn transforms_are_read_per_instance() {
    let layout = transform_layout();
    assert_eq!(layout.array_stride, 2 * TRANSFORM_HALFWORDS as u64);
    assert_eq!(layout.array_stride, 24);
    assert!(layout.per_instance);
    let places: Vec<(u64, u32)> = layout.attributes.iter().map(|a| (a.offset, a.shader_location)).collect();
    assert_eq!(places, vec![(0, 2), (8, 3), (16, 4)]);
    assert!(layout.attributes.iter().all(|a| matches!(a.format, AttributeFormat::Float32x2)));
}
