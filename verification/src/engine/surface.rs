//! Bookkeeping of the presentation surface: which swapchain configuration is
//! in force, how a resize changes it, and what one frame draws.

use crate::event::{PixelSize, WindowId};
use vstd::prelude::*;

verus! {

/// `wgpu::TextureFormat`, carried through as an opaque value.
#[verifier::external_type_specification]
#[verifier::external_body]
pub struct ExTextureFormat(wgpu::TextureFormat);

/// `wgpu::CompositeAlphaMode`, carried through as an opaque value.
#[verifier::external_type_specification]
#[verifier::external_body]
pub struct ExCompositeAlphaMode(wgpu::CompositeAlphaMode);

/// What `wgpu::TextureFormat::is_srgb` answers for a format.
pub uninterp spec fn format_is_srgb(format: wgpu::TextureFormat) -> bool;

/// `wgpu::TextureFormat::is_srgb` compares the format with its own
/// non-sRGB counterpart, so its answer depends on the format alone; the
/// contract gives that answer its name and claims nothing else.
pub assume_specification[ wgpu::TextureFormat::is_srgb ](format: &wgpu::TextureFormat) -> (srgb:
    bool)
    ensures
        srgb == format_is_srgb(*format),
;

/// Whether `index` is the position of the first `true` in `flags`.
pub open spec fn is_first_set(flags: Seq<bool>, index: int) -> bool {
    &&& 0 <= index < flags.len()
    &&& flags[index]
    &&& forall|j: int| 0 <= j < index ==> !flags[j]
}

/// Whether no flag in `flags` is `true`.
pub open spec fn none_set(flags: Seq<bool>) -> bool {
    forall|j: int| 0 <= j < flags.len() ==> !flags[j]
}

/// The preferred position among offers of which `flags` tells the wanted
/// ones: the first wanted offer, or the first offer of all where none is
/// wanted.
pub open spec fn preferred(flags: Seq<bool>) -> int {
    if none_set(flags) {
        0
    } else {
        choose|index: int| is_first_set(flags, index)
    }
}

/// There is only one first `true`: a position that is one is the preferred.
pub proof fn lemma_first_set_is_preferred(flags: Seq<bool>, index: int)
    requires
        is_first_set(flags, index),
    ensures
        preferred(flags) == index,
{
    assert(flags[index]);
    let chosen: int = choose|i: int| is_first_set(flags, i);
    assert(is_first_set(flags, chosen));
    if chosen < index {
        assert(!flags[chosen]);
    } else if index < chosen {
        assert(!flags[index]);
    }
}

/// Picks among offers: the position of the first wanted one, else 0.
pub fn preferred_index(flags: &Vec<bool>) -> (index: usize)
    ensures
        index == preferred(flags@),
        flags@.len() > 0 ==> index < flags@.len(),
{
    let mut i: usize = 0;
    while i < flags.len()
        invariant
            i <= flags.len(),
            forall|j: int| 0 <= j < i ==> !flags@[j],
        decreases flags.len() - i,
    {
        if flags[i] {
            proof {
                lemma_first_set_is_preferred(flags@, i as int);
            }
            return i;
        }
        i += 1;
    }
    0
}

/// For each format, whether it is an sRGB format.
pub open spec fn srgb_flags(formats: Seq<wgpu::TextureFormat>) -> Seq<bool> {
    Seq::new(formats.len(), |i: int| format_is_srgb(formats[i]))
}

/// The format a surface is configured with: the first sRGB format that the
/// surface offers, or the first format of all where it offers no sRGB one.
pub open spec fn preferred_format(formats: Seq<wgpu::TextureFormat>) -> wgpu::TextureFormat {
    formats[preferred(srgb_flags(formats))]
}

/// Chooses the surface format among those the surface offers.
pub fn choose_format(formats: &Vec<wgpu::TextureFormat>) -> (chosen: wgpu::TextureFormat)
    requires
        formats@.len() > 0,
    ensures
        chosen == preferred_format(formats@),
{
    let mut flags: Vec<bool> = Vec::new();
    let mut i: usize = 0;
    while i < formats.len()
        invariant
            i <= formats.len(),
            flags@.len() == i,
            forall|j: int| 0 <= j < i ==> flags@[j] == format_is_srgb(formats@[j]),
        decreases formats.len() - i,
    {
        flags.push(formats[i].is_srgb());
        i += 1;
    }
    assert(flags@ =~= srgb_flags(formats@));
    let index: usize = preferred_index(&flags);
    formats[index]
}

/// A colour with 8 bits per channel, alpha last.
#[derive(Clone, Copy, Debug, PartialEq, Eq, Structural)]
pub struct Color {
    pub r: u8,
    pub g: u8,
    pub b: u8,
    pub a: u8,
}

impl Color {
    /// Opaque white, the colour a new surface is cleared to.
    pub open spec fn spec_white() -> Color {
        Color { r: 255, g: 255, b: 255, a: 255 }
    }

    /// Opaque white.
    #[verifier::when_used_as_spec(spec_white)]
    pub fn white() -> (color: Color)
        ensures
            color == Color::spec_white(),
    {
        Color { r: 255, g: 255, b: 255, a: 255 }
    }
}

/// How frames are handed to the display.
#[derive(Clone, Copy, Debug, PartialEq, Eq, Structural)]
pub enum PresentMode {
    AutoVsync,
    AutoNoVsync,
    Fifo,
    FifoRelaxed,
    Immediate,
    Mailbox,
}

/// Usage bit of a texture that a render pass draws into.
pub const RENDER_ATTACHMENT: u32 = 16;

/// Frames that may be queued ahead of the display.
pub const FRAME_LATENCY: u32 = 1;

/// The configuration of the swapchain.
pub struct SurfaceConfig {
    /// Usage bits of the swapchain textures.
    pub usage: u32,
    pub format: wgpu::TextureFormat,
    pub width: u32,
    pub height: u32,
    pub present_mode: PresentMode,
    pub desired_maximum_frame_latency: u32,
    pub alpha_mode: wgpu::CompositeAlphaMode,
    /// Other formats that views of the swapchain textures may take.
    pub view_formats: Vec<wgpu::TextureFormat>,
}

impl SurfaceConfig {
    /// What holds of every configuration that the surface state applies:
    /// it spans at least one pixel each way, presents with vsync one frame
    /// ahead, is drawn into and nothing else, and has no view formats.
    pub open spec fn valid(&self) -> bool {
        &&& self.width >= 1
        &&& self.height >= 1
        &&& self.usage == RENDER_ATTACHMENT
        &&& self.present_mode == PresentMode::Fifo
        &&& self.desired_maximum_frame_latency == FRAME_LATENCY
        &&& self.view_formats@.len() == 0
    }
}

/// The larger of `extent` and 1.
pub open spec fn at_least_one(extent: u32) -> u32 {
    if extent >= 1 {
        extent
    } else {
        1
    }
}

/// What the surface state holds, as plain data.
pub struct SurfaceState {
    /// The window that the surface presents to.
    pub window: WindowId,
    pub size: PixelSize,
    pub config: SurfaceConfig,
    pub clear_color: Color,
}

impl SurfaceState {
    /// Whether this is the state of a surface that was just made for the
    /// window `window` of inner size `inner_size`, on a surface that offers
    /// `formats` and `alpha_modes`.
    pub open spec fn is_initial(
        &self,
        window: WindowId,
        inner_size: PixelSize,
        formats: Seq<wgpu::TextureFormat>,
        alpha_modes: Seq<wgpu::CompositeAlphaMode>,
    ) -> bool {
        &&& self.window == window
        &&& self.size == inner_size
        &&& self.clear_color == Color::white()
        &&& self.config.valid()
        &&& self.config.format == preferred_format(formats)
        &&& self.config.width == at_least_one(inner_size.width)
        &&& self.config.height == at_least_one(inner_size.height)
        &&& self.config.alpha_mode == alpha_modes[0]
    }

    /// The state after a resize to `new_size`: a degenerate size changes
    /// nothing, any other becomes the size of the swapchain.
    pub open spec fn resized(self, new_size: PixelSize) -> SurfaceState {
        if new_size.is_degenerate() {
            self
        } else {
            SurfaceState {
                window: self.window,
                size: new_size,
                config: SurfaceConfig {
                    width: new_size.width,
                    height: new_size.height,
                    ..self.config
                },
                clear_color: self.clear_color,
            }
        }
    }

    /// The pass that draws one frame: it clears the attachment to the clear
    /// colour and keeps the result.
    pub open spec fn frame_pass(self) -> RenderPass {
        RenderPass { load: LoadOp::Clear(self.clear_color), store: StoreOp::Store }
    }

    /// The state after the resizes `sizes`, applied in order.
    pub open spec fn after_resizes(self, sizes: Seq<PixelSize>) -> SurfaceState
        decreases sizes.len(),
    {
        if sizes.len() == 0 {
            self
        } else {
            self.after_resizes(sizes.drop_last()).resized(sizes.last())
        }
    }
}

/// What to do with the contents of the attachment when a pass begins.
#[derive(Clone, Copy, Debug, PartialEq, Eq, Structural)]
pub enum LoadOp {
    Clear(Color),
    Load,
}

/// What to do with the contents of the attachment when a pass ends.
#[derive(Clone, Copy, Debug, PartialEq, Eq, Structural)]
pub enum StoreOp {
    Store,
    Discard,
}

/// One render pass on the colour attachment of the frame, and on nothing
/// else: it has no depth buffer and takes no queries.
#[derive(Clone, Copy, Debug, PartialEq, Eq, Structural)]
pub struct RenderPass {
    pub load: LoadOp,
    pub store: StoreOp,
}

/// Why a frame could not be acquired from the swapchain.
#[derive(Clone, Copy, Debug, PartialEq, Eq, Structural)]
pub enum SurfaceError {
    Timeout,
    Outdated,
    Lost,
    OutOfMemory,
}

/// The state of the presentation surface of one window.
pub struct GpuState {
    window: WindowId,
    size: PixelSize,
    config: SurfaceConfig,
    clear_color: Color,
}

impl View for GpuState {
    type V = SurfaceState;

    closed spec fn view(&self) -> SurfaceState {
        SurfaceState {
            window: self.window,
            size: self.size,
            config: self.config,
            clear_color: self.clear_color,
        }
    }
}

impl GpuState {
    #[verifier::type_invariant]
    spec fn configured(&self) -> bool {
        self.config.valid()
    }

    /// The state of a surface made for the window `window` of inner size
    /// `inner_size`, on a surface that offers `formats` and `alpha_modes`.
    /// The caller applies the configuration to the surface.
    pub fn new_from_window(
        window: WindowId,
        inner_size: PixelSize,
        formats: &Vec<wgpu::TextureFormat>,
        alpha_modes: &Vec<wgpu::CompositeAlphaMode>,
    ) -> (state: GpuState)
        requires
            formats@.len() > 0,
            alpha_modes@.len() > 0,
        ensures
            state@.is_initial(window, inner_size, formats@, alpha_modes@),
    {
        let format = choose_format(formats);
        let width: u32 = if inner_size.width >= 1 {
            inner_size.width
        } else {
            1
        };
        let height: u32 = if inner_size.height >= 1 {
            inner_size.height
        } else {
            1
        };
        let config = SurfaceConfig {
            usage: RENDER_ATTACHMENT,
            format,
            width,
            height,
            present_mode: PresentMode::Fifo,
            desired_maximum_frame_latency: FRAME_LATENCY,
            alpha_mode: alpha_modes[0],
            view_formats: Vec::new(),
        };
        GpuState { window, size: inner_size, config, clear_color: Color::white() }
    }

    /// Takes a new window size. A degenerate one is ignored; any other
    /// becomes the size of the swapchain, and the caller applies the
    /// configuration to the surface. Tells whether it has to.
    pub fn resize(&mut self, new_size: PixelSize) -> (reconfigure: bool)
        ensures
            final(self)@ == old(self)@.resized(new_size),
            final(self)@.config.valid(),
            reconfigure == !new_size.is_degenerate(),
    {
        proof {
            use_type_invariant(&*self);
        }
        if new_size.width > 0 && new_size.height > 0 {
            self.size = new_size;
            self.config.width = new_size.width;
            self.config.height = new_size.height;
            true
        } else {
            false
        }
    }

    /// The configuration in force, to apply to the surface again.
    pub fn reconfigure(&self) -> (config: &SurfaceConfig)
        ensures
            *config == self@.config,
            config.valid(),
    {
        proof {
            use_type_invariant(self);
        }
        &self.config
    }

    /// The pass that draws one frame.
    pub fn render(&self) -> (pass: RenderPass)
        ensures
            pass == self@.frame_pass(),
    {
        RenderPass { load: LoadOp::Clear(self.clear_color), store: StoreOp::Store }
    }

    /// The window that the surface presents to.
    pub fn window(&self) -> (window: WindowId)
        ensures
            window == self@.window,
    {
        self.window
    }

    /// The size last taken from the window.
    pub fn size(&self) -> (size: PixelSize)
        ensures
            size == self@.size,
    {
        self.size
    }

    /// The colour that each frame is cleared to.
    pub fn clear_color(&self) -> (color: Color)
        ensures
            color == self@.clear_color,
    {
        self.clear_color
    }
}

/// The configured dimensions are never zero: a resize keeps a valid
/// configuration valid.
pub proof fn lemma_resize_keeps_valid(state: SurfaceState, new_size: PixelSize)
    requires
        state.config.valid(),
    ensures
        state.resized(new_size).config.valid(),
        state.resized(new_size).config.width >= 1,
        state.resized(new_size).config.height >= 1,
{
}

/// A resize applied twice with the same size leaves what it leaves when
/// applied once.
pub proof fn lemma_resize_idempotent(state: SurfaceState, new_size: PixelSize)
    ensures
        state.resized(new_size).resized(new_size) == state.resized(new_size),
{
}

/// Whether `sizes[index]` is the last size in `sizes` that is not degenerate.
pub open spec fn is_last_drawable(sizes: Seq<PixelSize>, index: int) -> bool {
    &&& 0 <= index < sizes.len()
    &&& !sizes[index].is_degenerate()
    &&& forall|j: int| index < j < sizes.len() ==> sizes[j].is_degenerate()
}

/// After any run of resizes the configured dimensions are at least 1 and
/// are those of the last resize that was not degenerate; where every resize
/// was degenerate, nothing has changed.
pub proof fn lemma_dimensions_follow_last_resize(state: SurfaceState, sizes: Seq<PixelSize>)
    requires
        state.config.valid(),
    ensures
        state.after_resizes(sizes).config.valid(),
        state.after_resizes(sizes).config.width >= 1,
        state.after_resizes(sizes).config.height >= 1,
        forall|index: int|
            is_last_drawable(sizes, index) ==> {
                &&& state.after_resizes(sizes).config.width == sizes[index].width
                &&& state.after_resizes(sizes).config.height == sizes[index].height
                &&& state.after_resizes(sizes).size == sizes[index]
            },
        (forall|j: int| 0 <= j < sizes.len() ==> sizes[j].is_degenerate())
            ==> state.after_resizes(sizes) == state,
    decreases sizes.len(),
{
    if sizes.len() > 0 {
        let front = sizes.drop_last();
        lemma_dimensions_follow_last_resize(state, front);
        let before = state.after_resizes(front);
        assert(state.after_resizes(sizes) == before.resized(sizes.last()));
        assert forall|index: int| is_last_drawable(sizes, index) implies {
            &&& state.after_resizes(sizes).config.width == sizes[index].width
            &&& state.after_resizes(sizes).config.height == sizes[index].height
            &&& state.after_resizes(sizes).size == sizes[index]
        } by {
            if index < sizes.len() - 1 {
                assert(sizes[sizes.len() - 1].is_degenerate());
                assert forall|j: int| index < j < front.len() implies front[j].is_degenerate() by {
                    assert(front[j] == sizes[j]);
                }
                assert(front[index] == sizes[index]);
                assert(is_last_drawable(front, index));
            }
        }
        if forall|j: int| 0 <= j < sizes.len() ==> sizes[j].is_degenerate() {
            assert forall|j: int| 0 <= j < front.len() implies front[j].is_degenerate() by {
                assert(front[j] == sizes[j]);
            }
            assert(sizes[sizes.len() - 1].is_degenerate());
        }
    }
}

} // verus!
