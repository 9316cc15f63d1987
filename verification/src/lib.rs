//! A small 2D renderer built on wgpu: growable GPU buffers that keep their
//! writes aligned, scenes of coloured geometry, and textured materials.

use std::sync::Arc;
use vstd::prelude::*;

pub mod buffer;
pub mod gpu;
pub mod object;
pub mod scene;
pub mod surface;
pub mod utils;
pub mod vertex;

use crate::buffer::appended;
use crate::gpu::{
    decoded_rgba, device_max_buffer_size, device_max_texture_dimension, device_of_adapter, is_texture_layout,
    layout_on, pass_commands, pass_draw_indexed, pass_set_pipeline, queue_serves, request_device, PassCommand,
    MAX_BUFFER_SIZE, MAX_TEXTURE_DIMENSION,
};
use crate::object::{loadable, ColoredObject, MaterialError};
use crate::scene::Scene;
use crate::surface::{
    acquire_frame, begin_frame_pass, caps_alpha_count, caps_alpha_mode_count, caps_reported, caps_srgb,
    caps_srgb_flags, config_for, config_settings, configure_surface, configured_size, create_command_encoder,
    finish_frame, request_redraw, set_configured_size, surface_capabilities,
    surface_configuration, surface_configured_on, surface_frame_held, surface_id, surface_is_configured,
    surface_presented, ClearColor, PresentChoice, SurfaceSettings, TEXTURE_USAGE_RENDER_ATTACHMENT,
};
use crate::utils::{choose_surface_format, frame_error, reported_error, SurfaceError};

verus! {

/// The device and queue that every GPU resource of the renderer is made with.
pub struct GpuContext {
    pub device: wgpu::Device,
    pub queue: wgpu::Queue,
}

impl GpuContext {
    /// The queue belongs to the device, and the device's limits allow
    /// buffers of `MAX_BUFFER_SIZE` bytes and textures of
    /// `MAX_TEXTURE_DIMENSION` texels a side (wgpu's default limits).
    pub open spec fn wf(&self) -> bool {
        &&& queue_serves(self.queue, self.device)
        &&& device_max_buffer_size(self.device) >= MAX_BUFFER_SIZE
        &&& device_max_texture_dimension(self.device) >= MAX_TEXTURE_DIMENSION
    }
}

/// Requests a device and its queue from `adapter` with wgpu's default
/// limits and no features; nothing when the adapter cannot give them.
pub fn request_gpu(adapter: &wgpu::Adapter) -> (gpu: Option<GpuContext>)
    ensures
        gpu matches Some(g) ==> g.wf() && device_of_adapter(g.device, *adapter),
{
    request_device(adapter)
}

/// The renderer of a window: its surface and pipelines, and the scenes it
/// can draw, one of which is active.
pub struct Renderer {
    pub window: Arc<winit::window::Window>,
    pub is_surface_configured: bool,
    gpu: Arc<GpuContext>,
    adapter: wgpu::Adapter,
    config: wgpu::SurfaceConfiguration,
    basic_render_pipeline: wgpu::RenderPipeline,
    texture_render_pipeline: wgpu::RenderPipeline,
    texture_bind_group_layout: wgpu::BindGroupLayout,
    scenes: Vec<Scene>,
    active_scene: Option<usize>,
    surface: wgpu::Surface<'static>,
    asset_root: std::path::PathBuf,
}

/// The format at `index` is the one a renderer picks from formats whose
/// sRGB flags are `flags`: the first that is not sRGB, or the first when all are.
pub open spec fn preferred_format(index: int, flags: Seq<bool>) -> bool {
    &&& 0 <= index < flags.len()
    &&& forall|i: int| 0 <= i < index ==> #[trigger] flags[i]
    &&& !flags[index] || (index == 0 && forall|i: int| 0 <= i < flags.len() ==> #[trigger] flags[i])
}

/// The settings a renderer configures its surface with, besides the format:
/// the first alpha mode offered, automatic vsync, a latency of two frames,
/// and frames used as render attachments.
pub open spec fn renderer_settings(settings: SurfaceSettings) -> bool {
    &&& settings.alpha_mode_index == 0
    &&& settings.present_mode is AutoVsync
    &&& settings.frame_latency == 2
    &&& settings.texture_usage == TEXTURE_USAGE_RENDER_ATTACHMENT
}

impl Renderer {
    /// The scenes, in the order they were created.
    pub closed spec fn scene_list(&self) -> Seq<Scene> {
        self.scenes@
    }

    /// The scene drawn by `render`, if any.
    pub closed spec fn active(&self) -> Option<usize> {
        self.active_scene
    }

    /// The device and queue of the renderer.
    pub closed spec fn context(&self) -> GpuContext {
        *self.gpu
    }

    /// The adapter the device was requested from.
    pub closed spec fn adapter_of(&self) -> wgpu::Adapter {
        self.adapter
    }

    /// The pipeline that frames are drawn with.
    pub closed spec fn basic_pipeline(&self) -> wgpu::RenderPipeline {
        self.basic_render_pipeline
    }

    /// The bind group layout of materials.
    pub closed spec fn texture_layout(&self) -> wgpu::BindGroupLayout {
        self.texture_bind_group_layout
    }

    /// The directory that material images are read from.
    pub closed spec fn asset_directory(&self) -> std::path::PathBuf {
        self.asset_root
    }

    /// Whether `resize` has configured the surface.
    pub closed spec fn configured(&self) -> bool {
        self.is_surface_configured
    }

    /// The renderer's surface configuration.
    pub closed spec fn configuration(&self) -> wgpu::SurfaceConfiguration {
        self.config
    }

    /// The renderer's surface.
    pub closed spec fn surface_of(&self) -> wgpu::Surface<'static> {
        self.surface
    }

    /// The frames presented on the renderer's surface, each as the passes
    /// that drew it.
    pub open spec fn presented_frames(&self) -> Seq<Seq<(ClearColor, Seq<PassCommand>)>> {
        surface_presented(self.surface_of())
    }

    /// The settings the surface configuration was made with.
    pub open spec fn settings(&self) -> SurfaceSettings {
        config_settings(self.configuration())
    }

    /// The size the surface is configured with.
    pub open spec fn surface_size(&self) -> (u32, u32) {
        configured_size(self.configuration())
    }

    /// Every scene is well formed and made with the renderer's device, and
    /// the active scene is one of them.
    pub open spec fn scenes_wf(&self) -> bool {
        &&& forall|i: int|
            #![trigger self.scene_list()[i]]
            0 <= i < self.scene_list().len() ==> self.scene_list()[i].wf() && self.scene_list()[i].context()
                == self.context()
        &&& self.active() matches Some(i) ==> i < self.scene_list().len()
    }

    /// Scene well-formedness depends on the scenes, the active scene and the
    /// device alone.
    proof fn lemma_scenes_wf_kept(a: &Renderer, b: &Renderer)
        requires
            a.scenes_wf(),
            b.scene_list() == a.scene_list(),
            b.active() == a.active(),
            b.context() == a.context(),
        ensures
            b.scenes_wf(),
    {
        assert forall|i: int| 0 <= i < b.scene_list().len() implies b.scene_list()[i].wf()
            && b.scene_list()[i].context() == b.context() by {
            assert(b.scene_list()[i] == a.scene_list()[i]);
            assert(a.scene_list()[i].wf() && a.scene_list()[i].context() == a.context());
        }
    }

    /// The renderer is well formed, with a frame held or not as `holding`
    /// says: its device is a valid one of its adapter, its configuration was
    /// made from what the surface offers that adapter, the surface is
    /// configured with the device when the renderer says so, the material
    /// layout is the texture layout of the device, and the scenes are well
    /// formed.
    pub open spec fn wf_holding(&self, holding: bool) -> bool {
        &&& self.context().wf()
        &&& device_of_adapter(self.context().device, self.adapter_of())
        &&& config_for(self.configuration(), surface_id(self.surface_of()), self.adapter_of())
        &&& self.configured() ==> surface_is_configured(self.surface_of()) && surface_configured_on(
            self.surface_of(),
            self.context().device,
        )
        &&& surface_frame_held(self.surface_of()) == holding
        &&& is_texture_layout(self.texture_layout())
        &&& layout_on(self.texture_layout(), self.context().device)
        &&& self.scenes_wf()
    }

    /// The renderer is well formed and its surface holds no frame.
    pub open spec fn wf(&self) -> bool {
        self.wf_holding(false)
    }

    /// A renderer of `window` made of the GPU objects created for it, with
    /// no scenes and an unconfigured surface.
    pub fn from_parts(
        window: Arc<winit::window::Window>,
        gpu: Arc<GpuContext>,
        adapter: wgpu::Adapter,
        config: wgpu::SurfaceConfiguration,
        basic_render_pipeline: wgpu::RenderPipeline,
        texture_render_pipeline: wgpu::RenderPipeline,
        texture_bind_group_layout: wgpu::BindGroupLayout,
        surface: wgpu::Surface<'static>,
        asset_root: std::path::PathBuf,
    ) -> (renderer: Self)
        requires
            gpu.wf(),
            device_of_adapter(gpu.device, adapter),
            config_for(config, surface_id(surface), adapter),
            is_texture_layout(texture_bind_group_layout),
            layout_on(texture_bind_group_layout, gpu.device),
            !surface_frame_held(surface),
        ensures
            renderer.wf(),
            renderer.context() == *gpu,
            renderer.presented_frames() == surface_presented(surface),
            renderer.scene_list() == Seq::<Scene>::empty(),
            renderer.active() == None::<usize>,
            !renderer.configured(),
            renderer.configuration() == config,
            renderer.basic_pipeline() == basic_render_pipeline,
            renderer.texture_layout() == texture_bind_group_layout,
            renderer.asset_directory() == asset_root,
    {
        Renderer {
            window,
            is_surface_configured: false,
            gpu,
            adapter,
            config,
            basic_render_pipeline,
            texture_render_pipeline,
            texture_bind_group_layout,
            scenes: Vec::new(),
            active_scene: None,
            surface,
            asset_root,
        }
    }

    /// The directory that material images are read from.
    pub fn asset_root(&self) -> (root: &std::path::PathBuf)
        ensures
            *root == self.asset_directory(),
    {
        &self.asset_root
    }

    /// The scene drawn by `render`, if any.
    pub fn active_scene(&self) -> (scene: Option<usize>)
        ensures
            scene == self.active(),
    {
        self.active_scene
    }

    /// The number of scenes.
    pub fn scene_count(&self) -> (n: usize)
        ensures
            n == self.scene_list().len(),
    {
        self.scenes.len()
    }

    /// Whether coloured geometry of these many vertex halfwords and indices
    /// can be added to scene `scene`.
    pub fn can_add_static_object(&self, scene: usize, vertex_halfwords: usize, indices: usize) -> (ok: bool)
        requires
            self.wf(),
        ensures
            ok == (scene < self.scene_list().len() && self.scene_list()[scene as int].can_add(
                vertex_halfwords as int,
                indices as int,
            )),
    {
        scene < self.scenes.len() && self.scenes[scene].can_add_static_object(vertex_halfwords, indices)
    }

    /// Creates an empty scene, makes it the active one and returns its number.
    pub fn create_scene(&mut self) -> (number: usize)
        requires
            old(self).wf(),
            old(self).scene_list().len() < usize::MAX,
        ensures
            final(self).wf(),
            number == old(self).scene_list().len(),
            final(self).scene_list().len() == number + 1,
            final(self).scene_list().take(number as int) == old(self).scene_list(),
            final(self).scene_list()[number as int].vertex_list() == Seq::<u16>::empty(),
            final(self).scene_list()[number as int].index_list() == Seq::<u16>::empty(),
            final(self).scene_list()[number as int].material_list() == Seq::<crate::object::Material>::empty(),
            final(self).active() == Some(number),
            final(self).configured() == old(self).configured(),
            final(self).basic_pipeline() == old(self).basic_pipeline(),
            final(self).presented_frames() == old(self).presented_frames(),
    {
        self.scenes.push(Scene::new(crate::gpu::share_context(&self.gpu)));
        self.active_scene = Some(self.scenes.len() - 1);
        assert(self.scenes@.take(old(self).scenes@.len() as int) =~= old(self).scenes@);
        assert forall|i: int| 0 <= i < self.scene_list().len() implies self.scene_list()[i].wf()
            && self.scene_list()[i].context() == self.context() by {
            if i < old(self).scene_list().len() {
                assert(self.scene_list()[i] == old(self).scene_list()[i]);
            }
        }
        self.scenes.len() - 1
    }

    /// Adds coloured geometry (its vertices as the halfwords of their fields,
    /// and its indices) to scene `scene`.
    pub fn add_static_object(&mut self, scene: usize, vertices: &[u16], indices: &[u16]) -> (object: ColoredObject)
        requires
            old(self).wf(),
            scene < old(self).scene_list().len(),
            old(self).scene_list()[scene as int].can_add(vertices.len() as int, indices.len() as int),
        ensures
            final(self).wf(),
            final(self).scene_list().len() == old(self).scene_list().len(),
            forall|i: int|
                0 <= i < old(self).scene_list().len() && i != scene ==> #[trigger] final(self).scene_list()[i]
                    == old(self).scene_list()[i],
            final(self).scene_list()[scene as int].vertex_list() == old(self).scene_list()[scene as int].vertex_list()
                + vertices@,
            final(self).scene_list()[scene as int].index_list() == old(self).scene_list()[scene as int].index_list()
                + indices@,
            object.start_index == old(self).scene_list()[scene as int].index_list().len() as u32,
            object.num_indices == indices.len() as u32,
            final(self).scene_list()[scene as int].material_list() == old(self).scene_list()[scene as int].material_list(),
            appended(
                old(self).scene_list()[scene as int].vertex_buffer(),
                final(self).scene_list()[scene as int].vertex_buffer(),
                vertices@,
            ),
            appended(
                old(self).scene_list()[scene as int].index_buffer(),
                final(self).scene_list()[scene as int].index_buffer(),
                indices@,
            ),
            final(self).scene_list()[scene as int].transform_buffer() == old(
                self,
            ).scene_list()[scene as int].transform_buffer(),
            final(self).scene_list()[scene as int].sampler() == old(self).scene_list()[scene as int].sampler(),
            final(self).active() == old(self).active(),
            final(self).configured() == old(self).configured(),
            final(self).basic_pipeline() == old(self).basic_pipeline(),
            final(self).presented_frames() == old(self).presented_frames(),
    {
        let scene_obj = &mut self.scenes[scene];
        let object = scene_obj.add_static_object(vertices, indices);
        assert forall|i: int| 0 <= i < self.scene_list().len() implies self.scene_list()[i].wf()
            && self.scene_list()[i].context() == self.context() by {
            if i != scene {
                assert(self.scene_list()[i] == old(self).scene_list()[i]);
            }
        }
        object
    }

    /// Adds to scene `scene` the material of the image in `image_bytes`,
    /// read from `image_path`, bound for the renderer's texture layout with
    /// the scene's sampler. When the image does not decode, or does not fit
    /// a texture, nothing changes and the error says which.
    pub fn add_scene_material(&mut self, scene: usize, image_path: &str, image_bytes: &[u8]) -> (result: Result<
        (),
        MaterialError,
    >)
        requires
            old(self).wf(),
            scene < old(self).scene_list().len(),
        ensures
            final(self).wf(),
            result is Ok <==> loadable(image_bytes@, image_path@),
            result matches Err(e) ==> (e is Image <==> decoded_rgba(image_bytes@, image_path@) is None),
            final(self).scene_list().len() == old(self).scene_list().len(),
            forall|i: int|
                0 <= i < old(self).scene_list().len() && i != scene ==> #[trigger] final(self).scene_list()[i]
                    == old(self).scene_list()[i],
            result is Err ==> final(self).scene_list()[scene as int] == old(self).scene_list()[scene as int],
            result is Ok ==> final(self).scene_list()[scene as int].material_list() == old(
                self,
            ).scene_list()[scene as int].material_list().push(final(self).scene_list()[scene as int].material_list().last()),
            result is Ok ==> final(self).scene_list()[scene as int].material_list().last().made_from(
                decoded_rgba(image_bytes@, image_path@)->0,
                old(self).texture_layout(),
                old(self).scene_list()[scene as int].sampler(),
                old(self).context(),
            ),
            final(self).scene_list()[scene as int].vertex_list() == old(self).scene_list()[scene as int].vertex_list(),
            final(self).scene_list()[scene as int].index_list() == old(self).scene_list()[scene as int].index_list(),
            final(self).scene_list()[scene as int].vertex_buffer() == old(self).scene_list()[scene as int].vertex_buffer(),
            final(self).scene_list()[scene as int].index_buffer() == old(self).scene_list()[scene as int].index_buffer(),
            final(self).scene_list()[scene as int].transform_buffer() == old(
                self,
            ).scene_list()[scene as int].transform_buffer(),
            final(self).scene_list()[scene as int].sampler() == old(self).scene_list()[scene as int].sampler(),
            final(self).active() == old(self).active(),
            final(self).configured() == old(self).configured(),
            final(self).basic_pipeline() == old(self).basic_pipeline(),
            final(self).presented_frames() == old(self).presented_frames(),
    {
        let layout = &self.texture_bind_group_layout;
        let result = self.scenes[scene].add_material(image_path, image_bytes, layout);
        assert forall|i: int| 0 <= i < self.scene_list().len() implies self.scene_list()[i].wf()
            && self.scene_list()[i].context() == self.context() by {
            assert(old(self).scene_list()[i].wf() && old(self).scene_list()[i].context() == old(self).context());
            if i != scene {
                assert(self.scene_list()[i] == old(self).scene_list()[i]);
            }
        }
        result
    }

    /// The commands of a frame: the basic pipeline, then, when a scene is
    /// active, its geometry and a draw of all its indices.
    pub open spec fn frame_commands(&self) -> Seq<PassCommand> {
        let set_pipeline = seq![PassCommand::SetPipeline { pipeline: self.basic_pipeline() }];
        match self.active() {
            None => set_pipeline,
            Some(i) => {
                let scene = self.scene_list()[i as int];
                set_pipeline + scene.render_commands() + seq![
                    PassCommand::DrawIndexed {
                        first_index: 0,
                        end_index: scene.index_list().len() as u32,
                        base_vertex: 0,
                        first_instance: 0,
                        end_instance: 1,
                    },
                ]
            },
        }
    }

    /// A frame sets the basic pipeline and, when scene `i` is active, binds
    /// that scene's vertex buffer, transform buffer and index buffer and draws
    /// one instance of all of that scene's indices (twice: once by the scene
    /// and once by the renderer); with no active scene it draws nothing.
    pub proof fn lemma_frame_draws_active_scene(&self)
        requires
            self.scenes_wf(),
        ensures
            self.active() is None ==> self.frame_commands() == seq![
                PassCommand::SetPipeline { pipeline: self.basic_pipeline() },
            ],
            self.active() matches Some(i) ==> {
                let scene = self.scene_list()[i as int];
                let draw = PassCommand::DrawIndexed {
                    first_index: 0,
                    end_index: scene.index_list().len() as u32,
                    base_vertex: 0,
                    first_instance: 0,
                    end_instance: 1,
                };
                self.frame_commands() == seq![
                    PassCommand::SetPipeline { pipeline: self.basic_pipeline() },
                    PassCommand::SetVertexBuffer { slot: 0, buffer: scene.vertex_buffer().buffer },
                    PassCommand::SetVertexBuffer { slot: 1, buffer: scene.transform_buffer() },
                    PassCommand::SetIndexBuffer { buffer: scene.index_buffer().buffer },
                    draw,
                    draw,
                ]
            },
    {
        if let Some(i) = self.active() {
            let scene = self.scene_list()[i as int];
            assert(scene.wf() && scene.context() == self.context());
            crate::scene::lemma_scene_draws_its_geometry(scene);
            assert(self.frame_commands() =~= seq![
                PassCommand::SetPipeline { pipeline: self.basic_pipeline() },
                PassCommand::SetVertexBuffer { slot: 0, buffer: scene.vertex_buffer().buffer },
                PassCommand::SetVertexBuffer { slot: 1, buffer: scene.transform_buffer() },
                PassCommand::SetIndexBuffer { buffer: scene.index_buffer().buffer },
                PassCommand::DrawIndexed {
                    first_index: 0,
                    end_index: scene.index_list().len() as u32,
                    base_vertex: 0,
                    first_instance: 0,
                    end_instance: 1,
                },
                PassCommand::DrawIndexed {
                    first_index: 0,
                    end_index: scene.index_list().len() as u32,
                    base_vertex: 0,
                    first_instance: 0,
                    end_instance: 1,
                },
            ]);
        }
    }

    /// Records the commands of a frame into `render_pass`.
    pub fn record_frame(&self, render_pass: &mut wgpu::RenderPass)
        requires
            self.scenes_wf(),
        ensures
            pass_commands(*final(render_pass)) == pass_commands(*old(render_pass)) + self.frame_commands(),
            crate::gpu::pass_encoder(*final(render_pass)) == crate::gpu::pass_encoder(*old(render_pass)),
    {
        pass_set_pipeline(render_pass, &self.basic_render_pipeline);
        match self.active_scene {
            None => {},
            Some(scene_index) => {
                let scene = &self.scenes[scene_index];
                scene.render(render_pass);
                pass_draw_indexed(render_pass, 0, #[verifier::truncate] (scene.index_count() as u32), 0, 0, 1);
            },
        }
    }

    /// Draws a frame: asks for a redraw, and when the surface is configured,
    /// acquires the frame's texture and draws it with `draw_frame`. Before the
    /// surface is configured nothing is acquired, submitted or presented.
    pub fn render(&mut self) -> (result: Result<(), SurfaceError>)
        requires
            old(self).wf(),
        ensures
            final(self).wf(),
            final(self).scene_list() == old(self).scene_list(),
            final(self).active() == old(self).active(),
            final(self).configured() == old(self).configured(),
            final(self).basic_pipeline() == old(self).basic_pipeline(),
            !old(self).configured() ==> result is Ok && final(self).presented_frames() == old(self).presented_frames(),
            result is Ok && old(self).configured() ==> final(self).presented_frames() == old(
                self,
            ).presented_frames().push(seq![(ClearColor::Black, old(self).frame_commands())]),
            result is Err ==> final(self).presented_frames() == old(self).presented_frames() || (result == Err::<
                (),
                SurfaceError,
            >(SurfaceError::Validation) && final(self).presented_frames() == old(self).presented_frames().push(
                Seq::empty(),
            )),
            result matches Err(e) ==> !(e is Lost),
    {
        request_redraw(&self.window);
        if !self.is_surface_configured {
            return Ok(());
        }
        let frame = acquire_frame(&mut self.surface);
        proof { Renderer::lemma_scenes_wf_kept(&*old(self), &*self); }
        self.draw_frame(frame)
    }

    /// Draws the frame, given what acquiring it gave. When there is a
    /// texture: records one pass that clears it to black and holds the
    /// frame's commands, submits that pass and presents the frame, asks for a
    /// redraw, and reports success; when wgpu's validation refuses the pass,
    /// the frame is presented without it and `SurfaceError::Validation` is
    /// reported. When there is no texture: reports `reported_error` of the
    /// reason and draws, submits and presents nothing.
    pub fn draw_frame(&mut self, frame: Result<wgpu::SurfaceTexture, SurfaceError>) -> (result: Result<
        (),
        SurfaceError,
    >)
        requires
            old(self).wf_holding(frame is Ok),
            frame is Ok ==> old(self).configured(),
            frame matches Ok(t) ==> crate::surface::frame_surface(t) == surface_id(old(self).surface_of()),
        ensures
            final(self).wf(),
            final(self).scene_list() == old(self).scene_list(),
            final(self).active() == old(self).active(),
            final(self).configured() == old(self).configured(),
            final(self).basic_pipeline() == old(self).basic_pipeline(),
            frame matches Err(e) ==> result == Err::<(), SurfaceError>(reported_error(e))
                && final(self).presented_frames() == old(self).presented_frames(),
            frame is Ok && result is Ok ==> final(self).presented_frames() == old(self).presented_frames().push(
                seq![(ClearColor::Black, old(self).frame_commands())],
            ),
            frame is Ok && result is Err ==> result == Err::<(), SurfaceError>(SurfaceError::Validation)
                && final(self).presented_frames() == old(self).presented_frames().push(Seq::empty()),
    {
        let output = match frame {
            Ok(texture) => texture,
            Err(e) => {
                return Err(frame_error(e));
            },
        };
        let mut encoder = create_command_encoder(&self.gpu);
        let mut render_pass = begin_frame_pass(&mut encoder, &output, ClearColor::Black);
        self.record_frame(&mut render_pass);
        let drawn = finish_frame(&self.gpu, encoder, render_pass, output, &mut self.surface);
        proof { Renderer::lemma_scenes_wf_kept(&*old(self), &*self); }
        request_redraw(&self.window);
        if drawn {
            Ok(())
        } else {
            Err(SurfaceError::Validation)
        }
    }

    /// Configures the surface with a new size, keeping the other settings,
    /// and reports whether the surface took the configuration; the renderer
    /// counts the surface as configured exactly then.
    pub fn resize(&mut self, width: u32, height: u32) -> (configured: bool)
        requires
            old(self).wf(),
            1 <= width <= MAX_TEXTURE_DIMENSION,
            1 <= height <= MAX_TEXTURE_DIMENSION,
        ensures
            final(self).wf(),
            final(self).configured() == configured,
            configured ==> surface_configured_on(final(self).surface_of(), final(self).context().device),
            final(self).surface_size() == (width, height),
            final(self).settings() == old(self).settings(),
            final(self).scene_list() == old(self).scene_list(),
            final(self).active() == old(self).active(),
            final(self).basic_pipeline() == old(self).basic_pipeline(),
            final(self).presented_frames() == old(self).presented_frames(),
    {
        set_configured_size(&mut self.config, width, height);
        let configured = configure_surface(&mut self.surface, &self.gpu, &self.adapter, &self.config);
        self.is_surface_configured = configured;
        proof { Renderer::lemma_scenes_wf_kept(&*old(self), &*self); }
        configured
    }
}

/// The configuration a renderer starts with for `surface` on `adapter`
/// (the adapter its device is requested from), at the given size: from
/// what the surface offers the adapter, the first format that is not sRGB
/// (or the first format when all are), the first alpha mode, automatic
/// vsync, a latency of two frames and frames used as render attachments.
/// Nothing when the surface offers no format or no alpha mode.
pub fn surface_configuration_for(
    surface: &wgpu::Surface,
    adapter: &wgpu::Adapter,
    width: u32,
    height: u32,
) -> (config: Option<wgpu::SurfaceConfiguration>)
    ensures
        config matches Some(c) ==> {
            &&& config_for(c, surface_id(*surface), *adapter)
            &&& configured_size(c) == (width, height)
            &&& renderer_settings(config_settings(c))
            &&& exists|caps: wgpu::SurfaceCapabilities|
                #[trigger] caps_reported(caps, surface_id(*surface), *adapter) && preferred_format(
                    config_settings(c).format_index as int,
                    caps_srgb(caps),
                )
        },
        config is None ==> exists|caps: wgpu::SurfaceCapabilities|
            #[trigger] caps_reported(caps, surface_id(*surface), *adapter) && (caps_srgb(caps).len() == 0
                || caps_alpha_count(caps) == 0),
{
    let caps = surface_capabilities(surface, adapter);
    let is_srgb = caps_srgb_flags(&caps);
    let alpha_modes = caps_alpha_mode_count(&caps);
    if is_srgb.len() == 0 || alpha_modes == 0 {
        return None;
    }
    let index = choose_surface_format(is_srgb.as_slice());
    let settings = SurfaceSettings {
        format_index: index,
        alpha_mode_index: 0,
        present_mode: PresentChoice::AutoVsync,
        frame_latency: 2,
        texture_usage: TEXTURE_USAGE_RENDER_ATTACHMENT,
    };
    let config = surface_configuration(surface, adapter, &caps, &settings, width, height);
    assert(preferred_format(config_settings(config).format_index as int, caps_srgb(caps)));
    Some(config)
}

} // verus!
