//! Textured materials: a texture, the meshes drawn with it, and the GPU
//! buffers that hold their vertices, indices and per-instance transforms.

use std::sync::Arc;
use vstd::prelude::*;

use crate::buffer::{appended, GpuBuffer};
use crate::gpu::{
    address_mode, binds, create_2d_texture, create_sampler, create_texture_bind_group, create_texture_view,
    decode_rgba, decoded_rgba, filter_mode, gpu_texels, gpu_texture_format, gpu_texture_size, gpu_texture_usage,
    is_texture_layout, layout_on, mipmap_filter_mode, sampler_address_mode, sampler_filters, texel_format,
    wgpu_address_mode, wgpu_filter_mode, wgpu_mipmap_filter_mode, wgpu_texel_format, AddressChoice, FilterChoice,
    TexelFormat, TEXTURE_USAGE_COPY_DST, TEXTURE_USAGE_TEXTURE_BINDING, pass_commands, pass_draw_indexed, pass_encoder, pass_set_bind_group, pass_set_index_buffer,
    pass_set_vertex_buffer, sampler_on, texture_on, view_of, write_rgba_texture, PassCommand, MAX_TEXTURE_DIMENSION,
    USAGE_INDEX, USAGE_VERTEX,
};
use crate::GpuContext;

verus! {

/// Size in bytes of a textured vertex: a position and texture coordinates,
/// two `f32` each.
pub const TEXTURE_VERTEX_SIZE: u32 = 16;

/// Number of halfwords in an instance transform: a 2x2 matrix and a
/// translation, six `f32`.
pub const TRANSFORM_HALFWORDS: usize = 12;

/// A mesh of a material: where its vertices and indices start in the
/// material's buffers, how many indices it has, and the transform of each of
/// its instances (as the halfwords of the six `f32` of each).
pub struct Mesh {
    pub vertex_offset: u32,
    pub index_offset: u32,
    pub num_indices: u32,
    pub transformations: Vec<[u16; 12]>,
}

/// A piece of coloured geometry in a scene: its first index in the scene's
/// index list and its number of indices.
pub struct ColoredObject {
    pub start_index: u32,
    pub num_indices: u32,
}

/// The draw that renders every instance of `mesh`.
pub open spec fn mesh_draw(mesh: Mesh) -> PassCommand {
    PassCommand::DrawIndexed {
        first_index: mesh.index_offset,
        end_index: (mesh.index_offset + mesh.num_indices) as u32,
        base_vertex: mesh.vertex_offset as i32,
        first_instance: 0,
        end_instance: mesh.transformations.len() as u32,
    }
}

/// A texture with the meshes drawn with it.
pub struct Material {
    pub bind_group: wgpu::BindGroup,
    pub texture: wgpu::Texture,
    pub view: wgpu::TextureView,
    meshes: Vec<Mesh>,
    vertex_buffer: GpuBuffer,
    index_buffer: GpuBuffer,
    instance_buffer: GpuBuffer,
}

impl Material {
    /// The meshes, in the order they were created.
    pub closed spec fn meshes(&self) -> Seq<Mesh> {
        self.meshes@
    }

    /// The buffer of the meshes' vertices.
    pub closed spec fn vertices(&self) -> GpuBuffer {
        self.vertex_buffer
    }

    /// The buffer of the meshes' indices.
    pub closed spec fn indices(&self) -> GpuBuffer {
        self.index_buffer
    }

    /// The buffer of the instances' transforms.
    pub closed spec fn instances(&self) -> GpuBuffer {
        self.instance_buffer
    }

    /// The material's texture.
    pub closed spec fn texture_of(&self) -> wgpu::Texture {
        self.texture
    }

    /// The view of the material's texture that its bind group binds.
    pub closed spec fn texture_view(&self) -> wgpu::TextureView {
        self.view
    }

    /// The material's bind group.
    pub closed spec fn bind_group_of(&self) -> wgpu::BindGroup {
        self.bind_group
    }

    /// The width and height of the material's texture.
    pub closed spec fn texture_size(&self) -> (u32, u32) {
        gpu_texture_size(self.texture)
    }

    /// The bytes of the material's texture, row by row.
    pub closed spec fn texels(&self) -> Seq<u8> {
        gpu_texels(self.texture)
    }

    /// The three buffers are well formed.
    pub open spec fn wf(&self) -> bool {
        &&& self.vertices().wf() && self.vertices().remembers_last_halfword()
        &&& self.indices().wf() && self.indices().remembers_last_halfword()
        &&& self.instances().wf() && self.instances().remembers_last_halfword()
    }

    /// Makes the material of the image in `image_bytes`, read from
    /// `image_path`: decodes it, uploads it as a texture, binds a view of it
    /// with `diffuse_sampler` for `bind_group_layout`, and starts with no
    /// meshes and empty buffers. When the image does not decode, the error
    /// of the `image` crate; when it is empty or larger than a texture can
    /// be, `MaterialError::TextureSize`; in both cases no GPU object is made.
    pub fn new(
        image_path: &str,
        image_bytes: &[u8],
        gpu: &Arc<GpuContext>,
        bind_group_layout: &wgpu::BindGroupLayout,
        diffuse_sampler: &wgpu::Sampler,
    ) -> (material: Result<Material, MaterialError>)
        requires
            gpu.wf(),
            is_texture_layout(*bind_group_layout),
            layout_on(*bind_group_layout, gpu.device),
            is_material_sampler(*diffuse_sampler),
            sampler_on(*diffuse_sampler, gpu.device),
        ensures
            material is Ok <==> loadable(image_bytes@, image_path@),
            material matches Err(e) ==> (e is Image <==> decoded_rgba(image_bytes@, image_path@) is None),
            material matches Ok(m) ==> m.made_from(
                decoded_rgba(image_bytes@, image_path@)->0,
                *bind_group_layout,
                *diffuse_sampler,
                **gpu,
            ),
    {
        let (width, height, pixels) = match decode_rgba(image_bytes, image_path) {
            Ok(image) => image,
            Err(e) => {
                return Err(MaterialError::Image(e));
            },
        };
        if width < 1 || width > MAX_TEXTURE_DIMENSION || height < 1 || height > MAX_TEXTURE_DIMENSION {
            return Err(MaterialError::TextureSize);
        }
        let format = texel_format(TexelFormat::Rgba8UnormSrgb);
        let usage: u32 = TEXTURE_USAGE_TEXTURE_BINDING | TEXTURE_USAGE_COPY_DST;
        assert(usage != 0 && usage & !(1u32 | 2u32 | 4u32) == 0u32 && usage & 2u32 != 0 && usage & 4u32 != 0) by (bit_vector)
            requires
                usage == 4u32 | 2u32,
        ;
        let mut diffuse_texture = create_2d_texture(&gpu.device, image_path, width, height, format, usage);
        write_rgba_texture(gpu, &mut diffuse_texture, pixels.as_slice(), 4 * width, 4 * height, width, height);
        assert(pixels@.take(4 * width * height) == pixels@);
        let diffuse_texture_view = create_texture_view(&diffuse_texture);
        let diffuse_bind_group = create_texture_bind_group(
            &gpu.device,
            bind_group_layout,
            &diffuse_texture,
            &diffuse_texture_view,
            diffuse_sampler,
        );
        proof { lemma_plain_usages_supported(); }
        Ok(Material {
            bind_group: diffuse_bind_group,
            texture: diffuse_texture,
            view: diffuse_texture_view,
            meshes: Vec::new(),
            vertex_buffer: GpuBuffer::new(crate::gpu::share_context(gpu), USAGE_VERTEX),
            index_buffer: GpuBuffer::new(crate::gpu::share_context(gpu), USAGE_INDEX),
            instance_buffer: GpuBuffer::new(crate::gpu::share_context(gpu), USAGE_VERTEX),
        })
    }

    /// A new material of a `width` by `height` image with RGBA pixels
    /// `pixels`, made with `gpu`: its texture is a sampled RGBA texture of
    /// the device that holds the image, its view is the texture's default
    /// view, its bind group binds that view and `sampler` for `layout`, it
    /// has no meshes, and its buffers are well formed, empty, and made with
    /// `gpu` for vertex, index and vertex use.
    pub open spec fn made_from(
        &self,
        image: (u32, u32, Seq<u8>),
        layout: wgpu::BindGroupLayout,
        sampler: wgpu::Sampler,
        gpu: GpuContext,
    ) -> bool {
        &&& self.wf()
        &&& self.texture_size() == (image.0, image.1)
        &&& self.texels() == image.2
        &&& is_material_texture(self.texture_of())
        &&& texture_on(self.texture_of(), gpu.device)
        &&& view_of(self.texture_view(), self.texture_of())
        &&& binds(self.bind_group_of(), layout, self.texture_view(), sampler)
        &&& self.meshes() == Seq::<Mesh>::empty()
        &&& self.vertices()@ == Seq::<u16>::empty()
        &&& self.indices()@ == Seq::<u16>::empty()
        &&& self.instances()@ == Seq::<u16>::empty()
        &&& *self.vertices().gpu == gpu
        &&& *self.indices().gpu == gpu
        &&& *self.instances().gpu == gpu
        &&& self.vertices().usage() == USAGE_VERTEX | 12u32
        &&& self.indices().usage() == USAGE_INDEX | 12u32
        &&& self.instances().usage() == USAGE_VERTEX | 12u32
    }

    /// Whether a mesh of these many vertex halfwords and indices can be added:
    /// both appends go through.
    pub fn can_create_renderable(&self, vertex_halfwords: usize, indices: usize) -> (ok: bool)
        requires
            self.wf(),
        ensures
            ok == (self.vertices().can_append(vertex_halfwords as int) && self.indices().can_append(indices as int)),
    {
        self.vertex_buffer.can_append_len(vertex_halfwords) && self.index_buffer.can_append_len(indices)
    }

    /// Whether an instance of mesh `renderable` can be added: the mesh exists
    /// and the instance buffer takes another transform.
    pub fn can_add_instance(&self, renderable: usize) -> (ok: bool)
        requires
            self.wf(),
        ensures
            ok == (renderable < self.meshes().len() && self.instances().can_append(TRANSFORM_HALFWORDS as int)),
    {
        renderable < self.meshes.len() && self.instance_buffer.can_append_len(TRANSFORM_HALFWORDS)
    }

    /// Adds a mesh with the given vertex halfwords and indices: appends them
    /// to the vertex and index buffers and returns the mesh's number. The
    /// mesh's vertex offset is counted from the index buffer's used bytes in
    /// textured vertices, and its index offset from the vertex buffer's used
    /// bytes in halfwords.
    pub fn create_renderable(&mut self, mesh: &[u16], indices: &[u16]) -> (number: usize)
        requires
            old(self).wf(),
            old(self).vertices().can_append(mesh.len() as int),
            old(self).indices().can_append(indices.len() as int),
        ensures
            final(self).wf(),
            number == old(self).meshes().len(),
            final(self).meshes().len() == old(self).meshes().len() + 1,
            final(self).meshes().take(number as int) == old(self).meshes(),
            final(self).meshes()[number as int].vertex_offset
                == (old(self).indices().bytes_used as u32) / TEXTURE_VERTEX_SIZE,
            final(self).meshes()[number as int].index_offset == (old(self).vertices().bytes_used as u32) / 2,
            final(self).meshes()[number as int].num_indices == indices.len() as u32,
            final(self).meshes()[number as int].transformations@ == Seq::<[u16; 12]>::empty(),
            appended(old(self).vertices(), final(self).vertices(), mesh@),
            appended(old(self).indices(), final(self).indices(), indices@),
            final(self).instances() == old(self).instances(),
    {
        let new_renderable = Mesh {
            vertex_offset: (#[verifier::truncate] (self.index_buffer.bytes_used as u32)) / TEXTURE_VERTEX_SIZE,
            index_offset: (#[verifier::truncate] (self.vertex_buffer.bytes_used as u32)) / 2,
            num_indices: #[verifier::truncate] (indices.len() as u32),
            transformations: Vec::new(),
        };
        self.vertex_buffer.append(mesh);
        self.index_buffer.append(indices);
        self.meshes.push(new_renderable);
        assert(self.meshes@.take(old(self).meshes@.len() as int) =~= old(self).meshes@);
        self.meshes.len() - 1
    }

    /// Adds an instance of mesh `renderable` with the given transform (the
    /// halfwords of its six `f32`), and appends the transform to the instance
    /// buffer.
    pub fn add_instance(&mut self, transform: [u16; 12], renderable: usize)
        requires
            old(self).wf(),
            renderable < old(self).meshes().len(),
            old(self).instances().can_append(TRANSFORM_HALFWORDS as int),
        ensures
            final(self).wf(),
            final(self).meshes().len() == old(self).meshes().len(),
            forall|i: int|
                0 <= i < old(self).meshes().len() && i != renderable ==> #[trigger] final(self).meshes()[i]
                    == old(self).meshes()[i],
            final(self).meshes()[renderable as int].vertex_offset == old(self).meshes()[renderable as int].vertex_offset,
            final(self).meshes()[renderable as int].index_offset == old(self).meshes()[renderable as int].index_offset,
            final(self).meshes()[renderable as int].num_indices == old(self).meshes()[renderable as int].num_indices,
            final(self).meshes()[renderable as int].transformations@
                == old(self).meshes()[renderable as int].transformations@.push(transform),
            appended(old(self).instances(), final(self).instances(), transform@),
            final(self).vertices() == old(self).vertices(),
            final(self).indices() == old(self).indices(),
    {
        let mesh = &mut self.meshes[renderable];
        let size = mesh.transformations.len();
        mesh.transformations.push(transform);
        let added: &[u16; 12] = &mesh.transformations[size];
        self.instance_buffer.append(added.as_slice());
    }

    /// Records the draws of every mesh: binds the texture at group 0, the
    /// vertex buffer at slot 0 and the index buffer, then draws each mesh's
    /// indices once per instance.
    pub fn render(&self, render_pass: &mut wgpu::RenderPass)
        requires
            self.wf(),
            forall|i: int|
                0 <= i < self.meshes().len() ==> #[trigger] self.meshes()[i].index_offset
                    + self.meshes()[i].num_indices <= u32::MAX,
        ensures
            pass_commands(*final(render_pass)) == pass_commands(*old(render_pass)) + seq![
                PassCommand::SetBindGroup { index: 0, bind_group: self.bind_group_of() },
                PassCommand::SetVertexBuffer { slot: 0, buffer: self.vertices().buffer },
                PassCommand::SetIndexBuffer { buffer: self.indices().buffer },
            ] + self.meshes().map_values(|m: Mesh| mesh_draw(m)),
            pass_encoder(*final(render_pass)) == pass_encoder(*old(render_pass)),
    {
        pass_set_bind_group(render_pass, 0, &self.bind_group);
        pass_set_vertex_buffer(render_pass, 0, &self.vertex_buffer.buffer);
        pass_set_index_buffer(render_pass, &self.index_buffer.buffer);
        let ghost start = pass_commands(*render_pass);
        let mut i: usize = 0;
        while i < self.meshes.len()
            invariant
                i <= self.meshes@.len(),
                forall|j: int|
                    0 <= j < self.meshes().len() ==> #[trigger] self.meshes()[j].index_offset
                        + self.meshes()[j].num_indices <= u32::MAX,
                pass_commands(*render_pass) == start + self.meshes@.take(i as int).map_values(|m: Mesh| mesh_draw(m)),
                pass_encoder(*render_pass) == pass_encoder(*old(render_pass)),
            decreases self.meshes@.len() - i,
        {
            let renderable = &self.meshes[i];
            assert(self.meshes()[i as int].index_offset + self.meshes()[i as int].num_indices <= u32::MAX);
            pass_draw_indexed(
                render_pass,
                renderable.index_offset,
                renderable.index_offset + renderable.num_indices,
                #[verifier::truncate] (renderable.vertex_offset as i32),
                0,
                #[verifier::truncate] (renderable.transformations.len() as u32),
            );
            i = i + 1;
            assert(self.meshes@.take(i as int).map_values(|m: Mesh| mesh_draw(m)) =~= self.meshes@.take(
                i - 1,
            ).map_values(|m: Mesh| mesh_draw(m)).push(mesh_draw(self.meshes@[i - 1])));
        }
        assert(self.meshes@.take(i as int) =~= self.meshes@);
    }
}

/// The image in `bytes`, read from `path`, decodes to a picture that fits a
/// texture.
pub open spec fn loadable(bytes: Seq<u8>, path: Seq<char>) -> bool {
    decoded_rgba(bytes, path) matches Some((width, height, _)) && 1 <= width <= MAX_TEXTURE_DIMENSION && 1
        <= height <= MAX_TEXTURE_DIMENSION
}

/// Whether a texture is one of a material: `Rgba8UnormSrgb` texels that
/// shaders sample and copies write.
pub open spec fn is_material_texture(texture: wgpu::Texture) -> bool {
    &&& gpu_texture_format(texture) == wgpu_texel_format(TexelFormat::Rgba8UnormSrgb)
    &&& gpu_texture_usage(texture) == TEXTURE_USAGE_TEXTURE_BINDING | TEXTURE_USAGE_COPY_DST
}

/// Whether a sampler is the one of materials: it clamps to the edge in every
/// direction, magnifies linearly, and minifies and picks mip levels by the
/// nearest texel.
pub open spec fn is_material_sampler(sampler: wgpu::Sampler) -> bool {
    &&& sampler_address_mode(sampler) == wgpu_address_mode(AddressChoice::ClampToEdge)
    &&& sampler_filters(sampler) == (
        wgpu_filter_mode(FilterChoice::Linear),
        wgpu_filter_mode(FilterChoice::Nearest),
        wgpu_mipmap_filter_mode(FilterChoice::Nearest),
    )
}

/// The image in `bytes`, read from `path`, makes a material exactly when it
/// decodes and each of its sides is at least one texel and at most
/// `MAX_TEXTURE_DIMENSION` texels; the limit holds per side, whatever the
/// number of texels in all.
pub proof fn lemma_loadable_by_sides(bytes: Seq<u8>, path: Seq<char>)
    ensures
        loadable(bytes, path) <==> (decoded_rgba(bytes, path) is Some && {
            let (width, height, pixels) = decoded_rgba(bytes, path)->0;
            &&& 1 <= width && width <= 8192
            &&& 1 <= height && height <= 8192
        }),
{
}

/// The draw of a mesh covers its `num_indices` indices from its index
/// offset, on its vertex offset, once for each transform added to it.
pub proof fn lemma_mesh_draw_covers_mesh(mesh: Mesh)
    requires
        mesh.index_offset + mesh.num_indices <= u32::MAX,
        mesh.transformations.len() <= u32::MAX,
        mesh.vertex_offset <= i32::MAX,
    ensures
        mesh_draw(mesh) is DrawIndexed,
        mesh_draw(mesh)->first_index == mesh.index_offset,
        mesh_draw(mesh)->end_index - mesh_draw(mesh)->first_index == mesh.num_indices,
        mesh_draw(mesh)->base_vertex == mesh.vertex_offset,
        mesh_draw(mesh)->first_instance == 0,
        mesh_draw(mesh)->end_instance == mesh.transformations.len(),
{
}

/// A transform added to a mesh adds one instance to the mesh's draw, and
/// leaves its index and vertex ranges as they are.
pub proof fn lemma_added_instance_is_drawn(before: Mesh, after: Mesh, transform: [u16; 12])
    requires
        after.vertex_offset == before.vertex_offset,
        after.index_offset == before.index_offset,
        after.num_indices == before.num_indices,
        after.transformations@ == before.transformations@.push(transform),
        after.transformations.len() <= u32::MAX,
    ensures
        mesh_draw(after)->end_instance == mesh_draw(before)->end_instance + 1,
        mesh_draw(after)->first_instance == mesh_draw(before)->first_instance,
        mesh_draw(after)->first_index == mesh_draw(before)->first_index,
        mesh_draw(after)->end_index == mesh_draw(before)->end_index,
        mesh_draw(after)->base_vertex == mesh_draw(before)->base_vertex,
{
}

/// Why a material could not be made.
pub enum MaterialError {
    /// The image's format is unknown, or its bytes do not decode.
    Image(image::ImageError),
    /// The image is empty, or wider or taller than a texture can be.
    TextureSize,
}

/// The sampler of textured materials, made with `gpu`'s device.
pub fn create_material_sampler(gpu: &GpuContext) -> (sampler: wgpu::Sampler)
    ensures
        is_material_sampler(sampler),
        sampler_on(sampler, gpu.device),
{
    let address = address_mode(AddressChoice::ClampToEdge);
    let mag_filter = filter_mode(FilterChoice::Linear);
    let min_filter = filter_mode(FilterChoice::Nearest);
    let mipmap_filter = mipmap_filter_mode(FilterChoice::Nearest);
    create_sampler(&gpu.device, address, mag_filter, min_filter, mipmap_filter)
}

/// The bind group layout of textured materials, made with `gpu`'s device.
pub fn create_texture_layout(gpu: &GpuContext) -> (layout: wgpu::BindGroupLayout)
    ensures
        is_texture_layout(layout),
        layout_on(layout, gpu.device),
{
    crate::gpu::create_texture_layout(&gpu.device)
}

/// Vertex and index use, each with both copy uses, are usages the library
/// creates buffers with.
pub proof fn lemma_plain_usages_supported()
    ensures
        crate::gpu::usage_supported(USAGE_VERTEX | 8u32 | 4u32),
        crate::gpu::usage_supported(USAGE_INDEX | 8u32 | 4u32),
        USAGE_VERTEX | 8u32 | 4u32 == USAGE_VERTEX | 12u32,
        USAGE_INDEX | 8u32 | 4u32 == USAGE_INDEX | 12u32,
{
    assert(crate::gpu::usage_supported(32u32 | 8u32 | 4u32)) by (bit_vector);
    assert(crate::gpu::usage_supported(16u32 | 8u32 | 4u32)) by (bit_vector);
    assert(32u32 | 8u32 | 4u32 == 32u32 | 12u32) by (bit_vector);
    assert(16u32 | 8u32 | 4u32 == 16u32 | 12u32) by (bit_vector);
}

} // verus!
