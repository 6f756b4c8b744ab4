use vstd::prelude::*;

verus! {

/// How presented frames are paced.
#[derive(Clone, Copy, Debug, PartialEq, Eq, Structural)]
pub enum PresentMode {
    AutoVsync,
    AutoNoVsync,
    Fifo,
    FifoRelaxed,
    Immediate,
    Mailbox,
}

/// How the surface's alpha channel is composited with what lies behind it.
#[derive(Clone, Copy, Debug, PartialEq, Eq, Structural)]
pub enum CompositeAlphaMode {
    Auto,
    Opaque,
    PreMultiplied,
    PostMultiplied,
    Inherit,
}

/// A pixel format the surface offers; `F` is the graphics backend's own
/// format value, `srgb` whether the format applies sRGB encoding.
#[derive(Clone, Copy, Debug)]
pub struct SurfaceFormat<F> {
    pub format: F,
    pub srgb: bool,
}

/// What a surface supports on the chosen adapter, in the backend's order of
/// preference.
pub struct SurfaceCapabilities<F> {
    pub formats: Vec<SurfaceFormat<F>>,
    pub present_modes: Vec<PresentMode>,
    pub alpha_modes: Vec<CompositeAlphaMode>,
}

/// The settings a surface is configured with.
#[derive(Clone, Copy, Debug, PartialEq)]
pub struct SurfaceConfiguration<F> {
    pub format: F,
    pub width: u32,
    pub height: u32,
    pub present_mode: PresentMode,
    pub alpha_mode: CompositeAlphaMode,
    pub desired_maximum_frame_latency: u32,
}

/// Frames the presentation engine may queue ahead: double buffering.
pub const FRAME_LATENCY: u32 = 2;

/// Why the next presentable frame could not be had.
#[derive(Clone, Copy, Debug, PartialEq, Eq, Structural)]
pub enum SurfaceError {
    Timeout,
    Outdated,
    Lost,
    OutOfMemory,
    Other,
}

/// A failure of the rendering backend for one window.
#[derive(Clone, Debug)]
pub enum RenderError {
    /// No adapter could drive the window's surface.
    NoAdapter,
    /// The adapter refused to hand out a device and queue.
    NoDevice,
    /// The surface offered no pixel format.
    NoSurfaceFormat,
    /// The surface offered no alpha mode.
    NoAlphaMode,
    /// The next frame could not be acquired.
    Frame(SurfaceError),
    /// Any other backend failure, with its cause.
    Backend(String),
}

/// `i` is the format to configure: the first one without sRGB encoding, or
/// the first one of all when every format is sRGB.
pub open spec fn is_preferred_format<F>(s: Seq<SurfaceFormat<F>>, i: int) -> bool {
    &&& 0 <= i < s.len()
    &&& forall|j: int| 0 <= j < i ==> (#[trigger] s[j]).srgb
    &&& !s[i].srgb || (i == 0 && forall|j: int| 0 <= j < s.len() ==> (#[trigger] s[j]).srgb)
}

/// `i` is the alpha mode to configure: the first one that is not opaque, or
/// the first one of all when every mode is opaque.
pub open spec fn is_preferred_alpha(s: Seq<CompositeAlphaMode>, i: int) -> bool {
    &&& 0 <= i < s.len()
    &&& forall|j: int| 0 <= j < i ==> #[trigger] s[j] == CompositeAlphaMode::Opaque
    &&& s[i] != CompositeAlphaMode::Opaque || (i == 0 && forall|j: int|
        0 <= j < s.len() ==> #[trigger] s[j] == CompositeAlphaMode::Opaque)
}

/// The first present mode offered, or vsync pacing if none is.
pub open spec fn resize_present_mode(s: Seq<PresentMode>) -> PresentMode {
    if s.len() > 0 { s[0] } else { PresentMode::AutoVsync }
}

/// The first alpha mode offered, or automatic compositing if none is.
pub open spec fn resize_alpha_mode(s: Seq<CompositeAlphaMode>) -> CompositeAlphaMode {
    if s.len() > 0 { s[0] } else { CompositeAlphaMode::Auto }
}

/// Picks the index of the format to configure; `None` when the surface offers
/// none.
pub fn select_surface_format<F>(formats: &Vec<SurfaceFormat<F>>) -> (r: Option<usize>)
    ensures
        r is None <==> formats@.len() == 0,
        r matches Some(i) ==> is_preferred_format(formats@, i as int),
{
    let mut i: usize = 0;
    while i < formats.len()
        invariant
            i <= formats@.len(),
            forall|j: int| 0 <= j < i ==> (#[trigger] formats@[j]).srgb,
        decreases formats@.len() - i,
    {
        if !formats[i].srgb {
            return Some(i);
        }
        i = i + 1;
    }
    if formats.len() == 0 {
        None
    } else {
        Some(0)
    }
}

/// Picks the index of the alpha mode to configure; `None` when the surface
/// offers none.
pub fn select_alpha_mode(modes: &Vec<CompositeAlphaMode>) -> (r: Option<usize>)
    ensures
        r is None <==> modes@.len() == 0,
        r matches Some(i) ==> is_preferred_alpha(modes@, i as int),
{
    let mut i: usize = 0;
    while i < modes.len()
        invariant
            i <= modes@.len(),
            forall|j: int| 0 <= j < i ==> #[trigger] modes@[j] == CompositeAlphaMode::Opaque,
        decreases modes@.len() - i,
    {
        if modes[i] != CompositeAlphaMode::Opaque {
            return Some(i);
        }
        i = i + 1;
    }
    if modes.len() == 0 {
        None
    } else {
        Some(0)
    }
}

/// The configuration a freshly created surface gets: the preferred format and
/// alpha mode, vsync pacing and double buffering, at the given size. Fails
/// when the surface offers no format, or else no alpha mode.
pub fn negotiate_configuration<F: Copy>(caps: &SurfaceCapabilities<F>, width: u32, height: u32) -> (r: Result<SurfaceConfiguration<F>, RenderError>)
    ensures
        caps.formats@.len() == 0 <==> r matches Err(RenderError::NoSurfaceFormat),
        caps.formats@.len() > 0 && caps.alpha_modes@.len() == 0 <==> r matches Err(RenderError::NoAlphaMode),
        caps.formats@.len() > 0 && caps.alpha_modes@.len() > 0 <==> r is Ok,
        r matches Ok(c) ==> {
            &&& exists|i: int| is_preferred_format(caps.formats@, i) && c.format == caps.formats@[i].format
            &&& exists|i: int| is_preferred_alpha(caps.alpha_modes@, i) && c.alpha_mode == caps.alpha_modes@[i]
            &&& c.width == width && c.height == height
            &&& c.present_mode == PresentMode::AutoVsync
            &&& c.desired_maximum_frame_latency == FRAME_LATENCY
        },
{
    let fi = match select_surface_format(&caps.formats) {
        Some(i) => i,
        None => return Err(RenderError::NoSurfaceFormat),
    };
    let ai = match select_alpha_mode(&caps.alpha_modes) {
        Some(i) => i,
        None => return Err(RenderError::NoAlphaMode),
    };
    Ok(SurfaceConfiguration {
        format: caps.formats[fi].format,
        width,
        height,
        present_mode: PresentMode::AutoVsync,
        alpha_mode: caps.alpha_modes[ai],
        desired_maximum_frame_latency: FRAME_LATENCY,
    })
}

/// The configuration a surface is given on resize: the format negotiated at
/// creation, the first present and alpha modes the surface now offers (vsync
/// pacing and automatic compositing when it offers none), at the new size.
pub fn resize_configuration<F: Copy>(format: F, present_modes: &Vec<PresentMode>, alpha_modes: &Vec<CompositeAlphaMode>, width: u32, height: u32) -> (r: SurfaceConfiguration<F>)
    ensures
        r.format == format,
        r.width == width,
        r.height == height,
        r.present_mode == resize_present_mode(present_modes@),
        r.alpha_mode == resize_alpha_mode(alpha_modes@),
        r.desired_maximum_frame_latency == FRAME_LATENCY,
{
    let present_mode = if present_modes.len() > 0 {
        present_modes[0]
    } else {
        PresentMode::AutoVsync
    };
    let alpha_mode = if alpha_modes.len() > 0 {
        alpha_modes[0]
    } else {
        CompositeAlphaMode::Auto
    };
    SurfaceConfiguration {
        format,
        width,
        height,
        present_mode,
        alpha_mode,
        desired_maximum_frame_latency: FRAME_LATENCY,
    }
}

} // verus!
