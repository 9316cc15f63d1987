//! The window surface and its frames: the surface's configuration, the
//! acquisition of a frame, the render pass that draws it, and its
//! presentation, with what the library relies on of each wgpu call.

use std::future::Future;
use vstd::prelude::*;

use crate::gpu::{device_max_texture_dimension, device_of_adapter, pass_commands, pass_encoder, queue_serves, PassCommand};
use crate::utils::SurfaceError;
use crate::GpuContext;

verus! {

/// A window of the windowing system.
#[verifier::external_type_specification]
#[verifier::external_body]
pub struct ExWindow(winit::window::Window);

/// An instance of wgpu: the entry point to its backends.
#[verifier::external_type_specification]
#[verifier::external_body]
pub struct ExInstance(wgpu::Instance);

/// Why the windowing system gave no surface for a window.
#[verifier::external_type_specification]
#[verifier::external_body]
pub struct ExCreateSurfaceError(wgpu::CreateSurfaceError);

/// A surface that frames are presented on.
#[verifier::external_type_specification]
#[verifier::external_body]
pub struct ExSurface<'window>(wgpu::Surface<'window>);

/// What a surface offers to an adapter: formats, present modes, alpha modes.
#[verifier::external_type_specification]
#[verifier::external_body]
pub struct ExSurfaceCapabilities(wgpu::SurfaceCapabilities);

/// How a surface is configured.
#[verifier::external_type_specification]
#[verifier::external_body]
#[verifier::reject_recursive_types(V)]
pub struct ExSurfaceConfiguration<V>(wgpu::wgt::SurfaceConfiguration<V>);

/// A texture acquired from a surface, to draw a frame into.
#[verifier::external_type_specification]
#[verifier::external_body]
pub struct ExSurfaceTexture(wgpu::SurfaceTexture);

/// A path in the file system.
#[verifier::external_type_specification]
#[verifier::external_body]
pub struct ExPathBuf(std::path::PathBuf);

/// Bit of `wgpu::TextureUsages::RENDER_ATTACHMENT`.
pub const TEXTURE_USAGE_RENDER_ATTACHMENT: u32 = 16;

/// The colour a frame's pass clears its texture to: `wgpu::Color::BLACK`,
/// `wgpu::Color::WHITE` or `wgpu::Color::TRANSPARENT`.
pub enum ClearColor {
    Black,
    White,
    Transparent,
}

/// The present modes that every surface accepts: `wgpu::PresentMode`'s
/// `AutoVsync` and `AutoNoVsync` (which fall back to `Fifo`) and `Fifo`.
pub enum PresentChoice {
    AutoVsync,
    AutoNoVsync,
    Fifo,
}

/// The choices a surface configuration is made of: the position of the
/// format and of the alpha mode among those the surface offers, the present
/// mode, the frame latency asked for, and the usage bits of the frames.
pub struct SurfaceSettings {
    pub format_index: usize,
    pub alpha_mode_index: usize,
    pub present_mode: PresentChoice,
    pub frame_latency: u32,
    pub texture_usage: u32,
}

/// The identity of a surface.
pub uninterp spec fn surface_id(surface: wgpu::Surface) -> int;

/// Whether `caps` are the capabilities that the surface with identity
/// `surface` reported for `adapter` when asked.
pub uninterp spec fn caps_reported(caps: wgpu::SurfaceCapabilities, surface: int, adapter: wgpu::Adapter) -> bool;

/// For each format in `caps`, in order, whether it is an sRGB format.
pub uninterp spec fn caps_srgb(caps: wgpu::SurfaceCapabilities) -> Seq<bool>;

/// The number of alpha modes in `caps`.
pub uninterp spec fn caps_alpha_count(caps: wgpu::SurfaceCapabilities) -> nat;

/// The settings a configuration was made with.
pub uninterp spec fn config_settings(config: wgpu::SurfaceConfiguration) -> SurfaceSettings;

/// The width and height a configuration asks for.
pub uninterp spec fn configured_size(config: wgpu::SurfaceConfiguration) -> (u32, u32);

/// Whether a configuration's format and alpha mode are the ones at its
/// settings' positions among those the surface with identity `surface`
/// reported for `adapter`.
pub uninterp spec fn config_for(config: wgpu::SurfaceConfiguration, surface: int, adapter: wgpu::Adapter) -> bool;

/// Whether the surface has been configured.
pub uninterp spec fn surface_is_configured(surface: wgpu::Surface) -> bool;

/// Whether the surface's current configuration was made with `device`.
pub uninterp spec fn surface_configured_on(surface: wgpu::Surface, device: wgpu::Device) -> bool;

/// Whether the surface has handed out a frame texture that is not yet presented.
pub uninterp spec fn surface_frame_held(surface: wgpu::Surface) -> bool;

/// The frames presented on the surface, in order, each as the passes that
/// drew it: the colour each pass cleared to and the commands it recorded.
pub uninterp spec fn surface_presented(surface: wgpu::Surface) -> Seq<Seq<(ClearColor, Seq<PassCommand>)>>;

/// The identity of the surface a frame texture was acquired from.
pub uninterp spec fn frame_surface(frame: wgpu::SurfaceTexture) -> int;

/// The identity of a frame texture.
pub uninterp spec fn frame_id(frame: wgpu::SurfaceTexture) -> int;

/// The settings are ones that every surface accepts for its capabilities
/// `caps`: existing positions, a latency wgpu clamps to what the surface
/// allows, and frames used as render attachments.
pub open spec fn settings_fit(settings: SurfaceSettings, caps: wgpu::SurfaceCapabilities) -> bool {
    &&& settings.format_index < caps_srgb(caps).len()
    &&& settings.alpha_mode_index < caps_alpha_count(caps)
    &&& settings.texture_usage == TEXTURE_USAGE_RENDER_ATTACHMENT
}

/// `Instance::create_surface` for the window, which the surface keeps alive:
/// a new surface, which is not configured, holds no frame and has presented
/// nothing; or why the windowing system gave none.
#[verifier::external_body]
pub(crate) fn create_window_surface(
    instance: &wgpu::Instance,
    window: &std::sync::Arc<winit::window::Window>,
) -> (surface: Result<wgpu::Surface<'static>, wgpu::CreateSurfaceError>)
    ensures
        surface matches Ok(s) ==> {
            &&& !surface_is_configured(s)
            &&& !surface_frame_held(s)
            &&& surface_presented(s) == Seq::<Seq<(ClearColor, Seq<PassCommand>)>>::empty()
        },
{
    instance.create_surface(std::sync::Arc::clone(window))
}

/// A surface for `window` from `instance`, which keeps the window alive: a
/// new surface that is not configured, holds no frame and has presented
/// nothing; or why the windowing system gave none.
pub fn create_surface(
    instance: &wgpu::Instance,
    window: &std::sync::Arc<winit::window::Window>,
) -> (surface: Result<wgpu::Surface<'static>, wgpu::CreateSurfaceError>)
    ensures
        surface matches Ok(s) ==> {
            &&& !surface_is_configured(s)
            &&& !surface_frame_held(s)
            &&& surface_presented(s) == Seq::<Seq<(ClearColor, Seq<PassCommand>)>>::empty()
        },
{
    create_window_surface(instance, window)
}

/// `Surface::get_capabilities` for `adapter`.
#[verifier::external_body]
pub(crate) fn surface_capabilities(surface: &wgpu::Surface, adapter: &wgpu::Adapter) -> (caps: wgpu::SurfaceCapabilities)
    ensures
        caps_reported(caps, surface_id(*surface), *adapter),
{
    surface.get_capabilities(adapter)
}

/// The number of formats in `caps`.
#[verifier::external_body]
pub(crate) fn caps_format_count(caps: &wgpu::SurfaceCapabilities) -> (count: usize)
    ensures
        count == caps_srgb(*caps).len(),
{
    caps.formats.len()
}

/// `TextureFormat::is_srgb` of the format at `index` in `caps`.
#[verifier::external_body]
pub(crate) fn caps_format_is_srgb(caps: &wgpu::SurfaceCapabilities, index: usize) -> (srgb: bool)
    requires
        index < caps_srgb(*caps).len(),
    ensures
        srgb == caps_srgb(*caps)[index as int],
{
    caps.formats[index].is_srgb()
}

/// For each format in `caps`, in order, whether it is an sRGB format.
pub fn caps_srgb_flags(caps: &wgpu::SurfaceCapabilities) -> (flags: Vec<bool>)
    ensures
        flags@ == caps_srgb(*caps),
{
    let count = caps_format_count(caps);
    let mut flags: Vec<bool> = Vec::new();
    let mut i: usize = 0;
    while i < count
        invariant
            i <= count,
            count == caps_srgb(*caps).len(),
            flags@ == caps_srgb(*caps).take(i as int),
        decreases count - i,
    {
        flags.push(caps_format_is_srgb(caps, i));
        i = i + 1;
        assert(caps_srgb(*caps).take(i as int) == caps_srgb(*caps).take(i - 1).push(caps_srgb(*caps)[i - 1]));
    }
    assert(caps_srgb(*caps).take(count as int) == caps_srgb(*caps));
    flags
}

/// The number of alpha modes in `caps`.
#[verifier::external_body]
pub(crate) fn caps_alpha_mode_count(caps: &wgpu::SurfaceCapabilities) -> (count: usize)
    ensures
        count == caps_alpha_count(*caps),
{
    caps.alpha_modes.len()
}

/// A `wgpu::SurfaceConfiguration` of `width` by `height` made of
/// `settings`: the format and alpha mode at its positions in `caps`, its
/// present mode, latency and usage bits, no extra view formats and the
/// automatic colour space.
#[verifier::external_body]
pub(crate) fn surface_configuration(
    surface: &wgpu::Surface,
    adapter: &wgpu::Adapter,
    caps: &wgpu::SurfaceCapabilities,
    settings: &SurfaceSettings,
    width: u32,
    height: u32,
) -> (config: wgpu::SurfaceConfiguration)
    requires
        caps_reported(*caps, surface_id(*surface), *adapter),
        settings_fit(*settings, *caps),
    ensures
        config_settings(config) == *settings,
        configured_size(config) == (width, height),
        config_for(config, surface_id(*surface), *adapter),
{
    let present_mode = match settings.present_mode {
        PresentChoice::AutoVsync => wgpu::PresentMode::AutoVsync,
        PresentChoice::AutoNoVsync => wgpu::PresentMode::AutoNoVsync,
        PresentChoice::Fifo => wgpu::PresentMode::Fifo,
    };
    let usage = wgpu::TextureUsages::from_bits_retain(settings.texture_usage);
    let (format, alpha_mode) = (caps.formats[settings.format_index], caps.alpha_modes[settings.alpha_mode_index]);
    let color_space = wgpu::wgt::SurfaceColorSpace::Auto;
    let desired_maximum_frame_latency = settings.frame_latency;
    wgpu::SurfaceConfiguration { usage, format, color_space, width, height, present_mode, alpha_mode, view_formats: vec![], desired_maximum_frame_latency }
}

/// Sets the width and height of a configuration, leaving the rest as it is.
#[verifier::external_body]
pub(crate) fn set_configured_size(config: &mut wgpu::SurfaceConfiguration, width: u32, height: u32)
    ensures
        configured_size(*final(config)) == (width, height),
        config_settings(*final(config)) == config_settings(*old(config)),
        forall|s: int, a: wgpu::Adapter| #[trigger] config_for(*final(config), s, a) == config_for(*old(config), s, a),
{
    config.width = width;
    config.height = height;
}

/// `Surface::configure` with `gpu`'s device, inside a validation error
/// scope of the device that is popped (polled once: native backends answer
/// at once) right after. Reports whether the scope caught no error: wgpu
/// validates the configuration against the capabilities the surface reports
/// at that moment for the device's adapter, and the platform may refuse the
/// swapchain; `requires` asks for a configuration made from capabilities
/// reported for that adapter, a non-empty size within the device's limit,
/// and no frame held. When it reports success the surface is configured
/// with the device; otherwise nothing is stated of its configuration.
/// Errors that are not validation errors (out of memory, a lost device) are
/// left to the device's handler.
#[verifier::external_body]
pub(crate) fn configure_surface(
    surface: &mut wgpu::Surface,
    gpu: &GpuContext,
    adapter: &wgpu::Adapter,
    config: &wgpu::SurfaceConfiguration,
) -> (configured: bool)
    requires
        device_of_adapter(gpu.device, *adapter),
        config_for(*config, surface_id(*old(surface)), *adapter),
        !surface_frame_held(*old(surface)),
        1 <= configured_size(*config).0 <= device_max_texture_dimension(gpu.device),
        1 <= configured_size(*config).1 <= device_max_texture_dimension(gpu.device),
    ensures
        surface_id(*final(surface)) == surface_id(*old(surface)),
        configured ==> surface_is_configured(*final(surface)),
        configured ==> surface_configured_on(*final(surface), gpu.device),
        !surface_frame_held(*final(surface)),
        surface_presented(*final(surface)) == surface_presented(*old(surface)),
{
    let _ = adapter;
    let scope = gpu.device.push_error_scope(wgpu::ErrorFilter::Validation);
    surface.configure(&gpu.device, config);
    let mut popped = Box::pin(scope.pop());
    let waker = std::task::Waker::noop();
    matches!(popped.as_mut().poll(&mut std::task::Context::from_waker(waker)), std::task::Poll::Ready(None))
}

/// `Surface::get_current_texture`: a frame texture (optimal or not) from
/// the surface, or why there is none. Which of these comes back is the
/// platform's answer at the time. The surface keeps its configuration.
#[verifier::external_body]
pub(crate) fn acquire_frame(surface: &mut wgpu::Surface) -> (frame: Result<wgpu::SurfaceTexture, SurfaceError>)
    requires
        surface_is_configured(*old(surface)),
        !surface_frame_held(*old(surface)),
    ensures
        surface_id(*final(surface)) == surface_id(*old(surface)),
        surface_is_configured(*final(surface)),
        forall|d: wgpu::Device| #[trigger] surface_configured_on(*final(surface), d) == surface_configured_on(*old(surface), d),
        surface_presented(*final(surface)) == surface_presented(*old(surface)),
        surface_frame_held(*final(surface)) == frame is Ok,
        frame matches Ok(t) ==> frame_surface(t) == surface_id(*old(surface)),
{
    match surface.get_current_texture() {
        wgpu::CurrentSurfaceTexture::Success(texture) => Ok(texture),
        wgpu::CurrentSurfaceTexture::Suboptimal(texture) => Ok(texture),
        wgpu::CurrentSurfaceTexture::Timeout => Err(SurfaceError::Timeout),
        wgpu::CurrentSurfaceTexture::Occluded => Err(SurfaceError::Occluded),
        wgpu::CurrentSurfaceTexture::Outdated => Err(SurfaceError::Outdated),
        wgpu::CurrentSurfaceTexture::Lost => Err(SurfaceError::Lost),
        wgpu::CurrentSurfaceTexture::Validation => Err(SurfaceError::Validation),
    }
}

/// Whether a command encoder was created by `device`.
pub uninterp spec fn encoder_on(encoder: wgpu::CommandEncoder, device: wgpu::Device) -> bool;

/// The identity of a command encoder.
pub uninterp spec fn encoder_id(encoder: wgpu::CommandEncoder) -> int;

/// The colour that the encoder's pass clears its frame to.
pub uninterp spec fn encoder_clear(encoder: wgpu::CommandEncoder) -> ClearColor;

/// The frame texture that the encoder's pass draws on, if a pass was begun.
pub uninterp spec fn encoder_frame(encoder: wgpu::CommandEncoder) -> Option<int>;

/// `Device::create_command_encoder` with no label: an encoder without passes.
#[verifier::external_body]
pub(crate) fn create_command_encoder(gpu: &GpuContext) -> (encoder: wgpu::CommandEncoder)
    ensures
        encoder_on(encoder, gpu.device),
        encoder_frame(encoder) is None,
{
    gpu.device.create_command_encoder(&wgpu::CommandEncoderDescriptor { label: None })
}

/// `CommandEncoder::begin_render_pass`, made independent of the encoder's
/// borrow by `RenderPass::forget_lifetime`, with one colour attachment: the
/// default view of the frame's texture, cleared to `clear` and stored. The
/// encoder is locked until the pass ends.
#[verifier::external_body]
pub(crate) fn begin_frame_pass(
    encoder: &mut wgpu::CommandEncoder,
    frame: &wgpu::SurfaceTexture,
    clear: ClearColor,
) -> (pass: wgpu::RenderPass<'static>)
    requires
        encoder_frame(*old(encoder)) is None,
    ensures
        pass_commands(pass) == Seq::<PassCommand>::empty(),
        pass_encoder(pass) == encoder_id(*final(encoder)),
        encoder_id(*final(encoder)) == encoder_id(*old(encoder)),
        forall|d: wgpu::Device| #[trigger] encoder_on(*final(encoder), d) == encoder_on(*old(encoder), d),
        encoder_clear(*final(encoder)) == clear,
        encoder_frame(*final(encoder)) == Some(frame_id(*frame)),
{
    let color = match clear {
        ClearColor::Black => wgpu::Color::BLACK,
        ClearColor::White => wgpu::Color::WHITE,
        ClearColor::Transparent => wgpu::Color::TRANSPARENT,
    };
    let view = frame.texture.create_view(&wgpu::TextureViewDescriptor::default());
    let ops = wgpu::Operations { load: wgpu::LoadOp::Clear(color), store: wgpu::StoreOp::Store };
    let attachment = wgpu::RenderPassColorAttachment { view: &view, resolve_target: None, depth_slice: None, ops };
    let descriptor = wgpu::RenderPassDescriptor { color_attachments: &[Some(attachment)], ..Default::default() };
    encoder.begin_render_pass(&descriptor).forget_lifetime()
}

/// Ends the frame's pass, submits the encoder and presents the frame,
/// inside a validation error scope of the device: drops the pass (which
/// ends it), `CommandEncoder::finish`, `Queue::submit` of the one command
/// buffer, `Queue::present` of the frame, and pops the scope (polled once:
/// native backends answer at once). Reports whether the scope caught no
/// error. wgpu validates the pass's draws against the pipeline (its colour
/// target format, vertex layouts and bind groups), which is built outside
/// the library from shaders read at run time: when validation fails, the
/// command buffer is not run, and the frame is counted as presented without
/// the pass. The surface no longer holds the frame either way. Errors that are not
/// validation errors (out of memory, a lost device) are left to the
/// device's handler.
#[verifier::external_body]
pub(crate) fn finish_frame(
    gpu: &GpuContext,
    encoder: wgpu::CommandEncoder,
    pass: wgpu::RenderPass<'static>,
    frame: wgpu::SurfaceTexture,
    surface: &mut wgpu::Surface,
) -> (drawn: bool)
    requires
        queue_serves(gpu.queue, gpu.device),
        encoder_on(encoder, gpu.device),
        pass_encoder(pass) == encoder_id(encoder),
        encoder_frame(encoder) == Some(frame_id(frame)),
        frame_surface(frame) == surface_id(*old(surface)),
        surface_frame_held(*old(surface)),
        surface_configured_on(*old(surface), gpu.device),
    ensures
        surface_id(*final(surface)) == surface_id(*old(surface)),
        surface_is_configured(*final(surface)) == surface_is_configured(*old(surface)),
        forall|d: wgpu::Device| #[trigger] surface_configured_on(*final(surface), d) == surface_configured_on(*old(surface), d),
        !surface_frame_held(*final(surface)),
        surface_presented(*final(surface)) == surface_presented(*old(surface)).push(
            if drawn { seq![(encoder_clear(encoder), pass_commands(pass))] } else { Seq::empty() },
        ),
{
    let _ = surface;
    let scope = gpu.device.push_error_scope(wgpu::ErrorFilter::Validation);
    drop(pass);
    gpu.queue.submit(std::iter::once(encoder.finish()));
    gpu.queue.present(frame);
    let mut popped = Box::pin(scope.pop());
    let ready = popped.as_mut().poll(&mut std::task::Context::from_waker(std::task::Waker::noop()));
    matches!(ready, std::task::Poll::Ready(None))
}

/// `Window::request_redraw`: asks the windowing system for another redraw event.
#[verifier::external_body]
pub(crate) fn request_redraw(window: &winit::window::Window) {
    window.request_redraw();
}

} // verus!
