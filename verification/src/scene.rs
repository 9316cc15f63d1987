//! A scene: coloured geometry kept both on the CPU and in GPU buffers, and
//! the textured materials drawn with it.

use std::sync::Arc;
use vstd::prelude::*;

use crate::buffer::{appended, GpuBuffer};
use crate::gpu::{
    buffer_mapped, buffer_on, create_buffer_init_words, decoded_rgba, gpu_buffer_size,
    is_texture_layout, layout_on, pass_commands, pass_draw_indexed, pass_encoder,
    pass_set_index_buffer, pass_set_vertex_buffer, sampler_on, words_as_halfwords, PassCommand, USAGE_INDEX,
    USAGE_VERTEX,
};
use crate::object::{
    create_material_sampler, is_material_sampler, lemma_plain_usages_supported, loadable, ColoredObject, Material,
    MaterialError,
};
use crate::GpuContext;

verus! {

/// The bits of `1.0f32`.
pub const ONE_F32_BITS: u32 = 0x3F80_0000;

/// The identity transform as the bits of its six `f32`: the columns
/// `(1, 0)` and `(0, 1)` of the matrix, then the translation `(0, 0)`.
pub open spec fn identity_transform_words() -> Seq<u32> {
    seq![ONE_F32_BITS, 0u32, 0u32, ONE_F32_BITS, 0u32, 0u32]
}

/// A scene: coloured vertices (as the halfwords of their `f32` fields) and
/// indices, the GPU buffers that mirror them, a buffer holding the identity
/// instance transform, and the scene's materials.
pub struct Scene {
    pub static_vertices: Vec<u16>,
    pub indices: Vec<u16>,
    static_vb: GpuBuffer,
    static_ib: GpuBuffer,
    static_transform_buffer: wgpu::Buffer,
    pub materials: Vec<Material>,
    sampler: wgpu::Sampler,
    gpu: Arc<GpuContext>,
}

impl Scene {
    /// The halfwords of the scene's coloured vertices.
    pub closed spec fn vertex_list(&self) -> Seq<u16> {
        self.static_vertices@
    }

    /// The scene's indices.
    pub closed spec fn index_list(&self) -> Seq<u16> {
        self.indices@
    }

    /// The scene's materials.
    pub closed spec fn material_list(&self) -> Seq<Material> {
        self.materials@
    }

    /// The GPU buffer of the coloured vertices.
    pub closed spec fn vertex_buffer(&self) -> GpuBuffer {
        self.static_vb
    }

    /// The GPU buffer of the indices.
    pub closed spec fn index_buffer(&self) -> GpuBuffer {
        self.static_ib
    }

    /// The sampler of the scene's materials.
    pub closed spec fn sampler(&self) -> wgpu::Sampler {
        self.sampler
    }

    /// The device and queue the scene's GPU objects are made with.
    pub closed spec fn context(&self) -> GpuContext {
        *self.gpu
    }

    /// The GPU buffer holding the instance transform of coloured geometry.
    pub closed spec fn transform_buffer(&self) -> wgpu::Buffer {
        self.static_transform_buffer
    }

    /// The GPU buffers, the transform buffer and the sampler are made with
    /// the scene's device, the GPU buffers mirror the vertex and index lists,
    /// and every material is well formed.
    pub open spec fn wf(&self) -> bool {
        &&& self.context().wf()
        &&& self.vertex_buffer().wf() && self.vertex_buffer().remembers_last_halfword()
        &&& self.index_buffer().wf() && self.index_buffer().remembers_last_halfword()
        &&& *self.vertex_buffer().gpu == self.context()
        &&& *self.index_buffer().gpu == self.context()
        &&& self.vertex_buffer()@ == self.vertex_list()
        &&& self.index_buffer()@ == self.index_list()
        &&& gpu_buffer_size(self.transform_buffer()) == 24
        &&& buffer_on(self.transform_buffer(), self.context().device)
        &&& !buffer_mapped(self.transform_buffer())
        &&& is_material_sampler(self.sampler())
        &&& sampler_on(self.sampler(), self.context().device)
        &&& forall|i: int| 0 <= i < self.material_list().len() ==> #[trigger] self.material_list()[i].wf()
    }

    /// An empty scene: no geometry, no materials, empty vertex and index
    /// buffers, and a transform buffer holding the identity transform.
    pub fn new(gpu: Arc<GpuContext>) -> (scene: Self)
        requires
            gpu.wf(),
        ensures
            scene.wf(),
            scene.context() == *gpu,
            scene.vertex_list() == Seq::<u16>::empty(),
            scene.index_list() == Seq::<u16>::empty(),
            scene.material_list() == Seq::<Material>::empty(),
            scene.vertex_buffer().usage() == USAGE_VERTEX | 12u32,
            scene.index_buffer().usage() == USAGE_INDEX | 12u32,
            gpu_buffer_size(scene.transform_buffer()) == 24,
            exists|low_first: bool|
                crate::gpu::gpu_halfwords(scene.transform_buffer()) == #[trigger] words_as_halfwords(
                    low_first,
                    identity_transform_words(),
                ),
    {
        let diffuse_sampler = create_material_sampler(&gpu);
        proof {
            lemma_plain_usages_supported();
            assert(crate::gpu::usage_supported(32u32)) by (bit_vector);
        }
        let identity: [u32; 6] = [ONE_F32_BITS, 0, 0, ONE_F32_BITS, 0, 0];
        assert(identity@ == identity_transform_words());
        let static_transform_buffer = create_buffer_init_words(&gpu, identity.as_slice(), USAGE_VERTEX);
        let ret = Scene {
            static_vertices: Vec::new(),
            indices: Vec::new(),
            static_vb: GpuBuffer::new(crate::gpu::share_context(&gpu), USAGE_VERTEX),
            static_ib: GpuBuffer::new(crate::gpu::share_context(&gpu), USAGE_INDEX),
            static_transform_buffer,
            materials: Vec::new(),
            sampler: diffuse_sampler,
            gpu,
        };
        ret
    }

    /// Coloured geometry with these many vertex halfwords and indices can be
    /// added: both appends go through.
    pub open spec fn can_add(&self, vertex_halfwords: int, indices: int) -> bool {
        &&& self.vertex_buffer().can_append(vertex_halfwords)
        &&& self.index_buffer().can_append(indices)
    }

    /// Tests `can_add`.
    pub fn can_add_static_object(&self, vertex_halfwords: usize, indices: usize) -> (ok: bool)
        requires
            self.wf(),
        ensures
            ok == self.can_add(vertex_halfwords as int, indices as int),
    {
        self.static_vb.can_append_len(vertex_halfwords) && self.static_ib.can_append_len(indices)
    }

    /// Adds coloured geometry: appends the vertices (as the halfwords of
    /// their fields) and the indices to the scene's lists and GPU buffers,
    /// and returns where its indices start and how many there are.
    pub fn add_static_object(&mut self, new_vertices: &[u16], new_indices: &[u16]) -> (object: ColoredObject)
        requires
            old(self).wf(),
            old(self).can_add(new_vertices.len() as int, new_indices.len() as int),
        ensures
            final(self).wf(),
            final(self).vertex_list() == old(self).vertex_list() + new_vertices@,
            final(self).index_list() == old(self).index_list() + new_indices@,
            final(self).material_list() == old(self).material_list(),
            appended(old(self).vertex_buffer(), final(self).vertex_buffer(), new_vertices@),
            appended(old(self).index_buffer(), final(self).index_buffer(), new_indices@),
            final(self).transform_buffer() == old(self).transform_buffer(),
            final(self).sampler() == old(self).sampler(),
            final(self).context() == old(self).context(),
            object.start_index == old(self).index_list().len() as u32,
            object.num_indices == new_indices.len() as u32,
            old(self).index_list().len() + new_indices.len() <= u32::MAX ==> final(self).index_list().subrange(
                object.start_index as int,
                object.start_index + object.num_indices,
            ) == new_indices@,
    {
        let start_index = #[verifier::truncate] (self.indices.len() as u32);
        self.static_vertices.extend_from_slice(new_vertices);
        self.static_vb.append(new_vertices);
        self.indices.extend_from_slice(new_indices);
        self.static_ib.append(new_indices);
        assert(self.static_vertices@ =~= old(self).static_vertices@ + new_vertices@);
        assert(self.indices@ =~= old(self).indices@ + new_indices@);
        assert forall|i: int| 0 <= i < self.material_list().len() implies #[trigger] self.material_list()[i].wf() by {
            assert(self.material_list()[i] == old(self).material_list()[i]);
        }
        ColoredObject { start_index, num_indices: #[verifier::truncate] (new_indices.len() as u32) }
    }

    /// Adds the material of the image in `image_bytes`, read from
    /// `image_path`, bound for `bind_group_layout` with the scene's sampler.
    /// When the image does not decode, or does not fit a texture, nothing
    /// changes and the error says which.
    pub fn add_material(&mut self, image_path: &str, image_bytes: &[u8], bind_group_layout: &wgpu::BindGroupLayout) -> (result: Result<(), MaterialError>)
        requires
            old(self).wf(),
            is_texture_layout(*bind_group_layout),
            layout_on(*bind_group_layout, old(self).context().device),
        ensures
            final(self).wf(),
            result is Ok <==> loadable(image_bytes@, image_path@),
            result matches Err(e) ==> (e is Image <==> decoded_rgba(image_bytes@, image_path@) is None),
            result is Err ==> *final(self) == *old(self),
            result is Ok ==> final(self).material_list() == old(self).material_list().push(
                final(self).material_list().last(),
            ),
            result is Ok ==> final(self).material_list().last().made_from(
                decoded_rgba(image_bytes@, image_path@)->0,
                *bind_group_layout,
                old(self).sampler(),
                old(self).context(),
            ),
            final(self).vertex_list() == old(self).vertex_list(),
            final(self).index_list() == old(self).index_list(),
            final(self).vertex_buffer() == old(self).vertex_buffer(),
            final(self).index_buffer() == old(self).index_buffer(),
            final(self).transform_buffer() == old(self).transform_buffer(),
            final(self).sampler() == old(self).sampler(),
            final(self).context() == old(self).context(),
    {
        let material = match Material::new(image_path, image_bytes, &self.gpu, bind_group_layout, &self.sampler) {
            Ok(material) => material,
            Err(e) => {
                return Err(e);
            },
        };
        self.materials.push(material);
        assert forall|i: int| 0 <= i < self.material_list().len() implies #[trigger] self.material_list()[i].wf() by {
            if i < old(self).material_list().len() {
                assert(self.material_list()[i] == old(self).material_list()[i]);
            }
        }
        Ok(())
    }

    /// The number of indices of the scene's coloured geometry.
    pub fn index_count(&self) -> (n: usize)
        ensures
            n == self.index_list().len(),
    {
        self.indices.len()
    }

    /// The commands `render` records.
    pub open spec fn render_commands(&self) -> Seq<PassCommand> {
        seq![
            PassCommand::SetVertexBuffer { slot: 0, buffer: self.vertex_buffer().buffer },
            PassCommand::SetVertexBuffer { slot: 1, buffer: self.transform_buffer() },
            PassCommand::SetIndexBuffer { buffer: self.index_buffer().buffer },
            PassCommand::DrawIndexed {
                first_index: 0,
                end_index: (self.index_buffer().bytes_used / 2) as u32,
                base_vertex: 0,
                first_instance: 0,
                end_instance: 1,
            },
        ]
    }

    /// Records the draw of the coloured geometry: the vertex buffer at slot
    /// 0, the identity transform at slot 1, the index buffer, and one
    /// instance of all the used indices.
    pub fn render(&self, render_pass: &mut wgpu::RenderPass)
        requires
            self.wf(),
        ensures
            pass_commands(*final(render_pass)) == pass_commands(*old(render_pass)) + self.render_commands(),
            pass_encoder(*final(render_pass)) == pass_encoder(*old(render_pass)),
    {
        pass_set_vertex_buffer(render_pass, 0, &self.static_vb.buffer);
        pass_set_vertex_buffer(render_pass, 1, &self.static_transform_buffer);
        pass_set_index_buffer(render_pass, &self.static_ib.buffer);
        pass_draw_indexed(
            render_pass,
            0,
            #[verifier::truncate] ((self.static_ib.bytes_used / 2) as u32),
            0,
            0,
            1,
        );
    }
}

/// The draw of a well-formed scene's coloured geometry covers exactly its
/// indices: the index buffer's used halfwords are the index list.
pub proof fn lemma_scene_draws_all_indices(scene: Scene)
    requires
        scene.wf(),
    ensures
        scene.index_buffer().bytes_used / 2 == scene.index_list().len(),
        scene.vertex_buffer().bytes_used / 2 == scene.vertex_list().len(),
{
}

/// Drawing a well-formed scene binds its own vertex buffer at slot 0, its
/// transform buffer at slot 1 and its own index buffer, then draws one
/// instance of exactly the scene's indices, from the first to the last.
pub proof fn lemma_scene_draws_its_geometry(scene: Scene)
    requires
        scene.wf(),
    ensures
        scene.render_commands() == seq![
            PassCommand::SetVertexBuffer { slot: 0, buffer: scene.vertex_buffer().buffer },
            PassCommand::SetVertexBuffer { slot: 1, buffer: scene.transform_buffer() },
            PassCommand::SetIndexBuffer { buffer: scene.index_buffer().buffer },
            PassCommand::DrawIndexed {
                first_index: 0,
                end_index: scene.index_list().len() as u32,
                base_vertex: 0,
                first_instance: 0,
                end_instance: 1,
            },
        ],
{
    lemma_scene_draws_all_indices(scene);
}

/// The instance transform of coloured geometry is the identity: the bit
/// patterns of the `f32` values 1.0 on the matrix's diagonal (words 0 and
/// 3) and 0.0 everywhere else (the off-diagonal entries and the
/// translation), six words in all.
pub proof fn lemma_identity_transform()
    ensures
        identity_transform_words().len() == 6,
        forall|i: int|
            0 <= i < 6 ==> #[trigger] identity_transform_words()[i] == (if i == 0 || i == 3 {
                0x3F80_0000u32
            } else {
                0u32
            }),
{
}

} // verus!
