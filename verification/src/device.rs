//! Device, present-mode and surface-format selection, swapchain sizing, and
//! the per-frame policy for recovering from a failed swapchain acquire.
//!
//! The surface and adapter data these functions read is modelled as plain
//! records; the graphics backend hands the same facts over as capability
//! structures, and the shell of the program converts between the two.

use vstd::prelude::*;

verus! {

/// Category of a physical adapter.
#[derive(Clone, Copy, PartialEq, Eq, Structural, Debug)]
pub enum DeviceType {
    IntegratedGpu,
    DiscreteGpu,
    VirtualGpu,
    Cpu,
    Other,
}

/// Preference rank of an adapter category; a smaller rank is preferred.
pub open spec fn spec_device_rank(t: DeviceType) -> int {
    match t {
        DeviceType::IntegratedGpu => 0,
        DeviceType::DiscreteGpu => 1,
        DeviceType::VirtualGpu => 2,
        DeviceType::Cpu => 3,
        DeviceType::Other => 4,
    }
}

/// Executable form of `spec_device_rank`.
pub fn device_rank(t: DeviceType) -> (r: u8)
    ensures
        r == spec_device_rank(t),
{
    match t {
        DeviceType::IntegratedGpu => 0,
        DeviceType::DiscreteGpu => 1,
        DeviceType::VirtualGpu => 2,
        DeviceType::Cpu => 3,
        DeviceType::Other => 4,
    }
}

/// Picks the adapter to open: the first one whose device type has the
/// smallest preference rank. Returns `None` exactly when no adapter was
/// enumerated.
pub fn select_adapter(device_types: &Vec<DeviceType>) -> (r: Option<usize>)
    ensures
        r is Some <==> device_types@.len() > 0,
        r matches Some(i) ==> {
            &&& 0 <= i < device_types@.len()
            &&& forall|j: int|
                0 <= j < device_types@.len() ==> spec_device_rank(device_types@[i as int])
                    <= spec_device_rank(#[trigger] device_types@[j])
            &&& forall|j: int|
                0 <= j < i ==> spec_device_rank(#[trigger] device_types@[j]) > spec_device_rank(
                    device_types@[i as int],
                )
        },
{
    if device_types.len() == 0 {
        return None;
    }
    let mut best: usize = 0;
    let mut k: usize = 1;
    while k < device_types.len()
        invariant
            1 <= k <= device_types@.len(),
            0 <= best < k,
            forall|j: int|
                0 <= j < k ==> spec_device_rank(device_types@[best as int]) <= spec_device_rank(
                    #[trigger] device_types@[j],
                ),
            forall|j: int|
                0 <= j < best ==> spec_device_rank(#[trigger] device_types@[j])
                    > spec_device_rank(device_types@[best as int]),
        decreases device_types@.len() - k,
    {
        if device_rank(device_types[k]) < device_rank(device_types[best]) {
            best = k;
        }
        k += 1;
    }
    Some(best)
}

/// How the swapchain hands finished images to the display.
#[derive(Clone, Copy, PartialEq, Eq, Structural, Debug)]
pub enum PresentMode {
    Immediate,
    Relaxed,
    Fifo,
    Mailbox,
}

/// Preference rank of a present mode; a smaller rank is preferred.
pub open spec fn spec_present_mode_rank(m: PresentMode) -> int {
    match m {
        PresentMode::Mailbox => 0,
        PresentMode::Relaxed => 1,
        PresentMode::Fifo => 2,
        PresentMode::Immediate => 3,
    }
}

/// Executable form of `spec_present_mode_rank`.
pub fn present_mode_rank(m: PresentMode) -> (r: u8)
    ensures
        r == spec_present_mode_rank(m),
{
    match m {
        PresentMode::Mailbox => 0,
        PresentMode::Relaxed => 1,
        PresentMode::Fifo => 2,
        PresentMode::Immediate => 3,
    }
}

/// Picks the present mode to use from the ones the surface offers:
/// Mailbox over Relaxed over Fifo over Immediate. Returns `None` exactly
/// when the offered list is empty; in particular Mailbox is picked whenever
/// it is offered.
pub fn select_present_mode(modes: &Vec<PresentMode>) -> (r: Option<PresentMode>)
    ensures
        r is Some <==> modes@.len() > 0,
        r matches Some(m) ==> {
            &&& modes@.contains(m)
            &&& forall|j: int|
                0 <= j < modes@.len() ==> spec_present_mode_rank(m) <= spec_present_mode_rank(
                    #[trigger] modes@[j],
                )
        },
        modes@.contains(PresentMode::Mailbox) ==> r == Some(PresentMode::Mailbox),
{
    if modes.len() == 0 {
        return None;
    }
    let mut best: usize = 0;
    let mut k: usize = 1;
    while k < modes.len()
        invariant
            1 <= k <= modes@.len(),
            0 <= best < k,
            forall|j: int|
                0 <= j < k ==> spec_present_mode_rank(modes@[best as int])
                    <= spec_present_mode_rank(#[trigger] modes@[j]),
        decreases modes@.len() - k,
    {
        if present_mode_rank(modes[k]) < present_mode_rank(modes[best]) {
            best = k;
        }
        k += 1;
    }
    let picked = modes[best];
    proof {
        assert(modes@.contains(picked));
        if modes@.contains(PresentMode::Mailbox) {
            let w = choose|w: int| 0 <= w < modes@.len() && modes@[w] == PresentMode::Mailbox;
            assert(spec_present_mode_rank(picked) <= spec_present_mode_rank(modes@[w]));
        }
    }
    Some(picked)
}

/// Interpretation of a pixel format's channels.
#[derive(Clone, Copy, PartialEq, Eq, Structural, Debug)]
pub enum ChannelType {
    Unorm,
    Snorm,
    Uint,
    Sint,
    Srgb,
}

/// Code under which the fallback format (8-bit RGB with sRGB channels) is
/// registered; used when the surface does not constrain the format at all.
pub const RGB8_SRGB_CODE: u64 = 0;

/// A concrete surface format: an opaque code identifying it to the backend,
/// and the channel interpretation the selection logic reads.
#[derive(Clone, Copy, PartialEq, Eq, Structural, Debug)]
pub struct SurfaceFormat {
    pub code: u64,
    pub channel: ChannelType,
}

/// Picks the surface format: the first offered format with sRGB channels,
/// the first offered format if none has them, and the fallback 8-bit sRGB
/// format when the surface leaves the choice free.
pub fn select_surface_format(formats: &Option<Vec<SurfaceFormat>>) -> (r: SurfaceFormat)
    requires
        formats matches Some(v) ==> v@.len() > 0,
    ensures
        formats is None ==> r == (SurfaceFormat { code: RGB8_SRGB_CODE, channel: ChannelType::Srgb }),
        formats matches Some(v) ==> {
            ||| exists|i: int|
                {
                    &&& 0 <= i < v@.len()
                    &&& (#[trigger] v@[i]).channel == ChannelType::Srgb
                    &&& r == v@[i]
                    &&& forall|j: int| 0 <= j < i ==> (#[trigger] v@[j]).channel != ChannelType::Srgb
                }
            ||| {
                &&& forall|i: int| 0 <= i < v@.len() ==> (#[trigger] v@[i]).channel != ChannelType::Srgb
                &&& r == v@[0]
            }
        },
{
    match formats {
        None => SurfaceFormat { code: RGB8_SRGB_CODE, channel: ChannelType::Srgb },
        Some(v) => {
            let mut k: usize = 0;
            while k < v.len()
                invariant
                    *formats == Some(*v),
                    v@.len() > 0,
                    0 <= k <= v@.len(),
                    forall|j: int| 0 <= j < k ==> (#[trigger] v@[j]).channel != ChannelType::Srgb,
                decreases v@.len() - k,
            {
                if matches!(v[k].channel, ChannelType::Srgb) {
                    return v[k];
                }
                k += 1;
            }
            v[0]
        },
    }
}

/// Size of a surface or swapchain image in pixels.
#[derive(Clone, Copy, PartialEq, Eq, Structural, Debug)]
pub struct Extent2D {
    pub width: u32,
    pub height: u32,
}

/// `e` lies within the box spanned by `lo` and `hi`, in both dimensions.
pub open spec fn extent_within(e: Extent2D, lo: Extent2D, hi: Extent2D) -> bool {
    &&& lo.width <= e.width <= hi.width
    &&& lo.height <= e.height <= hi.height
}

/// What the surface reports about swapchains it can back: how many images
/// a swapchain may hold, and which sizes it may have. `current_extent` is
/// the surface's fixed size, or `None` when the swapchain is free to choose.
#[derive(Clone, Copy, PartialEq, Eq, Debug)]
pub struct SurfaceCapabilities {
    pub min_image_count: u32,
    pub max_image_count: u32,
    pub current_extent: Option<Extent2D>,
    pub min_extent: Extent2D,
    pub max_extent: Extent2D,
}

impl SurfaceCapabilities {
    /// What the backend guarantees of every capability record it reports:
    /// at least one image, ordered bounds, and a current extent (when fixed)
    /// that lies within them.
    pub open spec fn wf(self) -> bool {
        &&& 1 <= self.min_image_count <= self.max_image_count
        &&& self.min_extent.width <= self.max_extent.width
        &&& self.min_extent.height <= self.max_extent.height
        &&& self.current_extent matches Some(e) ==> extent_within(
            e,
            self.min_extent,
            self.max_extent,
        )
    }
}

/// `x` raised to at least `lo`, then lowered to at most `hi`.
pub open spec fn spec_raise_then_cap(x: u32, lo: u32, hi: u32) -> u32 {
    let raised = if x > lo {
        x
    } else {
        lo
    };
    if raised > hi {
        hi
    } else {
        raised
    }
}

/// The image count a swapchain is built with: two images where the
/// capabilities allow it, more where they demand it, fewer where they cap it.
pub open spec fn spec_image_count(caps: SurfaceCapabilities) -> u32 {
    spec_raise_then_cap(2, caps.min_image_count, caps.max_image_count)
}

/// Everything a swapchain is created from.
#[derive(Clone, Copy, PartialEq, Eq, Debug)]
pub struct SwapchainConfig {
    pub extent: Extent2D,
    pub image_count: u32,
    pub format: SurfaceFormat,
    pub present_mode: PresentMode,
}

/// Sizes a swapchain to the surface: the surface's own extent where it has
/// one, otherwise the window's size clamped to the supported range; and an
/// image count of two, clamped to the supported range.
pub fn swapchain_config(
    caps: &SurfaceCapabilities,
    window_extent: Extent2D,
    format: SurfaceFormat,
    present_mode: PresentMode,
) -> (c: SwapchainConfig)
    requires
        caps.wf(),
    ensures
        c.format == format,
        c.present_mode == present_mode,
        caps.current_extent matches Some(e) ==> c.extent == e,
        caps.current_extent is None ==> c.extent == (Extent2D {
            width: spec_raise_then_cap(window_extent.width, caps.min_extent.width, caps.max_extent.width),
            height: spec_raise_then_cap(
                window_extent.height,
                caps.min_extent.height,
                caps.max_extent.height,
            ),
        }),
        extent_within(c.extent, caps.min_extent, caps.max_extent),
        c.image_count == spec_image_count(*caps),
        caps.min_image_count <= c.image_count <= caps.max_image_count,
        caps.max_image_count >= 2 ==> c.image_count >= 2,
{
    let extent = match caps.current_extent {
        Some(e) => e,
        None => {
            let w_raised = if window_extent.width > caps.min_extent.width {
                window_extent.width
            } else {
                caps.min_extent.width
            };
            let w = if w_raised > caps.max_extent.width {
                caps.max_extent.width
            } else {
                w_raised
            };
            let h_raised = if window_extent.height > caps.min_extent.height {
                window_extent.height
            } else {
                caps.min_extent.height
            };
            let h = if h_raised > caps.max_extent.height {
                caps.max_extent.height
            } else {
                h_raised
            };
            Extent2D { width: w, height: h }
        },
    };
    let count_raised = if 2 > caps.min_image_count {
        2
    } else {
        caps.min_image_count
    };
    let image_count = if count_raised > caps.max_image_count {
        caps.max_image_count
    } else {
        count_raised
    };
    SwapchainConfig { extent, image_count, format, present_mode }
}

/// How a color attachment is treated at the start and end of a pass.
#[derive(Clone, Copy, PartialEq, Eq, Structural, Debug)]
pub enum AttachmentLoadOp {
    Load,
    Clear,
    DontCare,
}

/// Whether a color attachment is kept after a pass.
#[derive(Clone, Copy, PartialEq, Eq, Structural, Debug)]
pub enum AttachmentStoreOp {
    Store,
    DontCare,
}

/// Image layout an attachment is in before or after a pass.
#[derive(Clone, Copy, PartialEq, Eq, Structural, Debug)]
pub enum ImageLayout {
    Undefined,
    General,
}

/// The render pass the demo draws with: a single color attachment that is
/// cleared on load and stored, an untouched stencil, and one subpass that
/// writes that attachment.
#[derive(Clone, Copy, PartialEq, Eq, Structural, Debug)]
pub struct RenderPassDesc {
    pub format: SurfaceFormat,
    pub samples: u8,
    pub load_op: AttachmentLoadOp,
    pub store_op: AttachmentStoreOp,
    pub stencil_load_op: AttachmentLoadOp,
    pub stencil_store_op: AttachmentStoreOp,
    pub initial_layout: ImageLayout,
    pub final_layout: ImageLayout,
    pub color_attachment_index: u32,
    pub color_attachment_layout: ImageLayout,
}

/// Describes the demo's only render pass for the given surface format.
pub fn render_pass_desc(format: SurfaceFormat) -> (d: RenderPassDesc)
    ensures
        d == (RenderPassDesc {
            format,
            samples: 1,
            load_op: AttachmentLoadOp::Clear,
            store_op: AttachmentStoreOp::Store,
            stencil_load_op: AttachmentLoadOp::DontCare,
            stencil_store_op: AttachmentStoreOp::DontCare,
            initial_layout: ImageLayout::Undefined,
            final_layout: ImageLayout::General,
            color_attachment_index: 0,
            color_attachment_layout: ImageLayout::General,
        }),
{
    RenderPassDesc {
        format,
        samples: 1,
        load_op: AttachmentLoadOp::Clear,
        store_op: AttachmentStoreOp::Store,
        stencil_load_op: AttachmentLoadOp::DontCare,
        stencil_store_op: AttachmentStoreOp::DontCare,
        initial_layout: ImageLayout::Undefined,
        final_layout: ImageLayout::General,
        color_attachment_index: 0,
        color_attachment_layout: ImageLayout::General,
    }
}

/// What acquiring the next swapchain image came back with.
#[derive(Clone, Copy, PartialEq, Eq, Structural, Debug)]
pub enum AcquireResult {
    /// An image is ready, at this index in the swapchain.
    Image(u32),
    /// No image became ready within the timeout.
    NotReady,
    /// The swapchain no longer matches the surface.
    OutOfDate,
    /// The surface itself is gone.
    SurfaceLost,
}

/// What the frame loop does with the acquire result.
#[derive(Clone, Copy, PartialEq, Eq, Structural, Debug)]
pub enum FrameAction {
    /// Present the acquired image.
    Present(u32),
    /// Skip this frame and try again later.
    Skip,
    /// Destroy the swapchain, build a new one, and force a redraw.
    Rebuild,
}

/// The frame loop's reaction to an acquire result: present a ready image,
/// treat a timeout as a skipped frame, and rebuild the swapchain on any
/// other failure.
pub fn acquire_action(r: &AcquireResult) -> (a: FrameAction)
    ensures
        a == (match *r {
            AcquireResult::Image(i) => FrameAction::Present(i),
            AcquireResult::NotReady => FrameAction::Skip,
            AcquireResult::OutOfDate => FrameAction::Rebuild,
            AcquireResult::SurfaceLost => FrameAction::Rebuild,
        }),
{
    match r {
        AcquireResult::Image(i) => FrameAction::Present(*i),
        AcquireResult::NotReady => FrameAction::Skip,
        AcquireResult::OutOfDate => FrameAction::Rebuild,
        AcquireResult::SurfaceLost => FrameAction::Rebuild,
    }
}

/// Whether the frame as a whole forces a swapchain rebuild: it does when
/// acquiring failed for a reason other than the timeout, or when an image
/// was acquired but presenting it failed.
pub fn needs_rebuild(r: &AcquireResult, present_ok: bool) -> (rebuild: bool)
    ensures
        rebuild == (match *r {
            AcquireResult::Image(_) => !present_ok,
            AcquireResult::NotReady => false,
            AcquireResult::OutOfDate => true,
            AcquireResult::SurfaceLost => true,
        }),
{
    match r {
        AcquireResult::Image(_) => !present_ok,
        AcquireResult::NotReady => false,
        AcquireResult::OutOfDate => true,
        AcquireResult::SurfaceLost => true,
    }
}

/// Picks the queue family the device is opened with: the first family that
/// can present to the surface. Returns `None` exactly when none can.
pub fn select_queue_family(supports_surface: &Vec<bool>) -> (r: Option<usize>)
    ensures
        r is Some <==> exists|i: int|
            0 <= i < supports_surface@.len() && #[trigger] supports_surface@[i],
        r matches Some(i) ==> {
            &&& 0 <= i < supports_surface@.len()
            &&& supports_surface@[i as int]
            &&& forall|j: int| 0 <= j < i ==> !(#[trigger] supports_surface@[j])
        },
{
    let mut k: usize = 0;
    while k < supports_surface.len()
        invariant
            0 <= k <= supports_surface@.len(),
            forall|j: int| 0 <= j < k ==> !(#[trigger] supports_surface@[j]),
        decreases supports_surface@.len() - k,
    {
        if supports_surface[k] {
            return Some(k);
        }
        k += 1;
    }
    None
}

} // verus!
