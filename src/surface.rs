//! Surface negotiation: format, present mode, extent and image count.

use vstd::prelude::*;

verus! {

/// Raw code of `VK_FORMAT_B8G8R8A8_SRGB`.
pub const FORMAT_B8G8R8A8_SRGB: i32 = 50;

/// Raw code of `VK_COLOR_SPACE_SRGB_NONLINEAR_KHR`.
pub const COLOR_SPACE_SRGB_NONLINEAR: i32 = 0;

/// Raw code of `VK_PRESENT_MODE_IMMEDIATE_KHR`.
pub const PRESENT_MODE_IMMEDIATE: i32 = 0;

/// Raw code of `VK_PRESENT_MODE_MAILBOX_KHR`.
pub const PRESENT_MODE_MAILBOX: i32 = 1;

/// Raw code of `VK_PRESENT_MODE_FIFO_KHR`, the tear-free mode every
/// conformant implementation offers.
pub const PRESENT_MODE_FIFO: i32 = 2;

/// A (format, color space) pair as the surface reports it, by raw code.
#[derive(Clone, Copy, Debug, PartialEq, Eq, Structural)]
pub struct SurfaceFormat {
    pub format: i32,
    pub color_space: i32,
}

/// Whether `f` is the preferred 8-bit-per-channel BGRA sRGB format.
pub open spec fn is_preferred_format(f: SurfaceFormat) -> bool {
    f.format == FORMAT_B8G8R8A8_SRGB && f.color_space == COLOR_SPACE_SRGB_NONLINEAR
}

/// Whether `f` uses the sRGB non-linear color space.
pub open spec fn is_srgb_format(f: SurfaceFormat) -> bool {
    f.color_space == COLOR_SPACE_SRGB_NONLINEAR
}

/// Whether `f` is what the given round of the search looks for: the
/// preferred format (`preferred`), or any sRGB format.
pub open spec fn format_matches(f: SurfaceFormat, preferred: bool) -> bool {
    if preferred {
        is_preferred_format(f)
    } else {
        is_srgb_format(f)
    }
}

/// Index of the first format in `s` that `format_matches`, if any.
pub open spec fn first_match(s: Seq<SurfaceFormat>, preferred: bool) -> Option<int>
    decreases s.len(),
{
    if s.len() == 0 {
        None
    } else if format_matches(s[0], preferred) {
        Some(0)
    } else {
        match first_match(s.drop_first(), preferred) {
            Some(i) => Some(i + 1),
            None => None,
        }
    }
}

/// The format that negotiation picks from the reported list: the preferred
/// sRGB BGRA8 format, else the first sRGB one, else the first reported.
pub open spec fn chosen_format(formats: Seq<SurfaceFormat>) -> Option<SurfaceFormat> {
    match first_match(formats, true) {
        Some(i) => Some(formats[i]),
        None => match first_match(formats, false) {
            Some(i) => Some(formats[i]),
            None => if formats.len() > 0 {
                Some(formats[0])
            } else {
                None
            },
        },
    }
}

/// What `first_match` returns: the index of the first match, or no match.
pub proof fn lemma_first_match(s: Seq<SurfaceFormat>, preferred: bool)
    ensures
        match first_match(s, preferred) {
            Some(i) => 0 <= i < s.len() && format_matches(s[i], preferred) && forall|j: int|
                0 <= j < i ==> !format_matches(#[trigger] s[j], preferred),
            None => forall|j: int| 0 <= j < s.len() ==> !format_matches(#[trigger] s[j], preferred),
        },
    decreases s.len(),
{
    if s.len() > 0 {
        lemma_first_match(s.drop_first(), preferred);
        assert forall|j: int| 1 <= j < s.len() implies s[j] == s.drop_first()[j - 1] by {}
    }
}

/// Index of the first format that `format_matches`.
fn find_format(formats: &Vec<SurfaceFormat>, preferred: bool) -> (r: Option<usize>)
    ensures
        match r {
            Some(i) => first_match(formats@, preferred) == Some(i as int),
            None => first_match(formats@, preferred).is_none(),
        },
{
    let mut i: usize = 0;
    while i < formats.len()
        invariant
            0 <= i <= formats@.len(),
            forall|j: int| 0 <= j < i ==> !format_matches(#[trigger] formats@[j], preferred),
        decreases formats.len() - i,
    {
        let f = formats[i];
        let hit = if preferred {
            f.format == FORMAT_B8G8R8A8_SRGB && f.color_space == COLOR_SPACE_SRGB_NONLINEAR
        } else {
            f.color_space == COLOR_SPACE_SRGB_NONLINEAR
        };
        if hit {
            proof {
                lemma_first_match(formats@, preferred);
            }
            return Some(i);
        }
        i = i + 1;
    }
    proof {
        lemma_first_match(formats@, preferred);
    }
    None
}

/// Chooses the swapchain format from the list the surface reports: the
/// preferred sRGB BGRA8 format, else the first with an sRGB color space, else
/// the first reported. Never a format outside the list; `None` only for an
/// empty list.
pub fn select_format(formats: &Vec<SurfaceFormat>) -> (r: Option<SurfaceFormat>)
    ensures
        r == chosen_format(formats@),
        r.is_none() <==> formats@.len() == 0,
{
    proof {
        lemma_first_match(formats@, true);
        lemma_first_match(formats@, false);
    }
    match find_format(formats, true) {
        Some(i) => Some(formats[i]),
        None => match find_format(formats, false) {
            Some(i) => Some(formats[i]),
            None => if formats.len() > 0 {
                Some(formats[0])
            } else {
                None
            },
        },
    }
}

/// A chosen format is one of the reported formats.
pub proof fn lemma_chosen_format_is_reported(formats: Seq<SurfaceFormat>)
    ensures
        chosen_format(formats) matches Some(f) ==> formats.contains(f),
{
    lemma_first_match(formats, true);
    lemma_first_match(formats, false);
    match first_match(formats, true) {
        Some(i) => assert(formats[i] == formats[i]),
        None => match first_match(formats, false) {
            Some(i) => assert(formats[i] == formats[i]),
            None => if formats.len() > 0 {
                assert(formats[0] == formats[0]);
            },
        },
    }
}

/// The present mode that negotiation picks: the tear-free first-in-first-out
/// mode whenever it is offered, else the first mode reported.
pub open spec fn chosen_present_mode(modes: Seq<i32>) -> Option<i32> {
    if modes.contains(PRESENT_MODE_FIFO) {
        Some(PRESENT_MODE_FIFO)
    } else if modes.len() > 0 {
        Some(modes[0])
    } else {
        None
    }
}

/// Chooses the present mode: first-in-first-out whenever the surface offers
/// it, else the first reported mode. Never a mode outside the list; `None`
/// only for an empty list.
pub fn select_present_mode(modes: &Vec<i32>) -> (r: Option<i32>)
    ensures
        r == chosen_present_mode(modes@),
        r.is_none() <==> modes@.len() == 0,
        r matches Some(m) ==> modes@.contains(m),
{
    let mut i: usize = 0;
    while i < modes.len()
        invariant
            0 <= i <= modes@.len(),
            forall|j: int| 0 <= j < i ==> modes@[j] != PRESENT_MODE_FIFO,
        decreases modes.len() - i,
    {
        if modes[i] == PRESENT_MODE_FIFO {
            proof {
                assert(modes@[i as int] == PRESENT_MODE_FIFO);
            }
            return Some(PRESENT_MODE_FIFO);
        }
        i = i + 1;
    }
    if modes.len() > 0 {
        proof {
            assert(modes@[0] == modes@[0]);
        }
        Some(modes[0])
    } else {
        None
    }
}

/// A width and height in pixels.
#[derive(Clone, Copy, Debug, PartialEq, Eq, Structural)]
pub struct Extent2D {
    pub width: u32,
    pub height: u32,
}

/// The part of the surface capabilities that negotiation reads.
#[derive(Clone, Copy, Debug, PartialEq, Eq, Structural)]
pub struct SurfaceCapabilities {
    pub min_image_count: u32,
    /// Zero means that the surface sets no upper bound.
    pub max_image_count: u32,
    /// A width of `u32::MAX` means that the swapchain picks its own extent.
    pub current_extent: Extent2D,
    pub min_image_extent: Extent2D,
    pub max_image_extent: Extent2D,
}

/// `v` brought into `[lo, hi]`: `lo` below it, `hi` above it.
pub open spec fn clamp_spec(v: u32, lo: u32, hi: u32) -> u32 {
    if v < lo {
        lo
    } else if v > hi {
        hi
    } else {
        v
    }
}

fn clamp_u32(v: u32, lo: u32, hi: u32) -> (r: u32)
    ensures
        r == clamp_spec(v, lo, hi),
{
    if v < lo {
        lo
    } else if v > hi {
        hi
    } else {
        v
    }
}

/// Whether the surface dictates the extent itself.
pub open spec fn has_fixed_extent(caps: SurfaceCapabilities) -> bool {
    caps.current_extent.width != u32::MAX
}

/// The extent that negotiation picks for a window of the given size.
pub open spec fn chosen_extent(caps: SurfaceCapabilities, window_width: u32, window_height: u32) -> Extent2D {
    if has_fixed_extent(caps) {
        caps.current_extent
    } else {
        Extent2D {
            width: clamp_spec(window_width, caps.min_image_extent.width, caps.max_image_extent.width),
            height: clamp_spec(
                window_height,
                caps.min_image_extent.height,
                caps.max_image_extent.height,
            ),
        }
    }
}

/// Chooses the swapchain extent: the surface's current extent verbatim when it
/// reports one, else the window size clamped to the reported limits.
pub fn select_extent(caps: &SurfaceCapabilities, window_width: u32, window_height: u32) -> (r: Extent2D)
    ensures
        r == chosen_extent(*caps, window_width, window_height),
{
    if caps.current_extent.width != u32::MAX {
        caps.current_extent
    } else {
        Extent2D {
            width: clamp_u32(window_width, caps.min_image_extent.width, caps.max_image_extent.width),
            height: clamp_u32(
                window_height,
                caps.min_image_extent.height,
                caps.max_image_extent.height,
            ),
        }
    }
}

/// The upper bound on the image count, with "no bound" read as `u32::MAX`.
pub open spec fn effective_max_image_count(max_count: u32) -> u32 {
    if max_count == 0 {
        u32::MAX
    } else {
        max_count
    }
}

/// One image beyond the surface's minimum, within its maximum.
pub open spec fn chosen_image_count(min_count: u32, max_count: u32) -> u32 {
    let hi = effective_max_image_count(max_count);
    if (min_count as int) + 1 < hi as int {
        (min_count + 1) as u32
    } else {
        hi
    }
}

/// The image count to ask for: `min(min_count + 1, max_count)`, where a
/// `max_count` of zero sets no bound.
pub fn select_image_count(caps: &SurfaceCapabilities) -> (r: u32)
    ensures
        r == chosen_image_count(caps.min_image_count, caps.max_image_count),
        r as int == if caps.min_image_count as int + 1 < effective_max_image_count(caps.max_image_count) {
            caps.min_image_count as int + 1
        } else {
            effective_max_image_count(caps.max_image_count) as int
        },
{
    let hi: u32 = if caps.max_image_count == 0 {
        u32::MAX
    } else {
        caps.max_image_count
    };
    if caps.min_image_count < hi && caps.min_image_count + 1 < hi {
        caps.min_image_count + 1
    } else {
        hi
    }
}

/// The chosen image count lies within the surface's limits: at least the
/// minimum, and at most the maximum whenever one is reported, for any surface
/// whose reported minimum does not exceed its reported maximum.
pub proof fn lemma_image_count_within_limits(min_count: u32, max_count: u32)
    requires
        max_count == 0 || min_count <= max_count,
    ensures
        min_count <= chosen_image_count(min_count, max_count),
        max_count != 0 ==> chosen_image_count(min_count, max_count) <= max_count,
{
}

/// What the surface reports about the swapchains it supports.
pub struct SurfaceSupport {
    pub capabilities: SurfaceCapabilities,
    pub formats: Vec<SurfaceFormat>,
    pub present_modes: Vec<i32>,
}

/// The configuration that negotiation settles on.
#[derive(Clone, Copy, Debug, PartialEq, Eq, Structural)]
pub struct SwapchainConfig {
    pub format: SurfaceFormat,
    pub present_mode: i32,
    pub extent: Extent2D,
    pub image_count: u32,
}

/// Why no swapchain configuration could be settled on.
#[derive(Clone, Copy, Debug, PartialEq, Eq, Structural)]
pub enum NegotiationError {
    /// The surface reports no format or no present mode.
    InadequateSupport,
}

/// Settles the whole swapchain configuration for a window of the given size.
/// Fails exactly when the surface reports no format or no present mode.
pub fn negotiate(support: &SurfaceSupport, window_width: u32, window_height: u32) -> (r: Result<SwapchainConfig, NegotiationError>)
    ensures
        r is Err <==> support.formats@.len() == 0 || support.present_modes@.len() == 0,
        r matches Ok(c) ==> {
            &&& Some(c.format) == chosen_format(support.formats@)
            &&& Some(c.present_mode) == chosen_present_mode(support.present_modes@)
            &&& c.extent == chosen_extent(support.capabilities, window_width, window_height)
            &&& c.image_count == chosen_image_count(
                support.capabilities.min_image_count,
                support.capabilities.max_image_count,
            )
        },
{
    let format = match select_format(&support.formats) {
        Some(f) => f,
        None => return Err(NegotiationError::InadequateSupport),
    };
    let present_mode = match select_present_mode(&support.present_modes) {
        Some(m) => m,
        None => return Err(NegotiationError::InadequateSupport),
    };
    Ok(SwapchainConfig {
        format,
        present_mode,
        extent: select_extent(&support.capabilities, window_width, window_height),
        image_count: select_image_count(&support.capabilities),
    })
}

/// The chosen present mode is one of the reported modes, and it is the
/// first-in-first-out mode whenever the surface offers that one.
pub proof fn lemma_present_mode_choice(modes: Seq<i32>)
    ensures
        chosen_present_mode(modes) matches Some(m) ==> modes.contains(m),
        modes.contains(PRESENT_MODE_FIFO) ==> chosen_present_mode(modes) == Some(PRESENT_MODE_FIFO),
{
    if !modes.contains(PRESENT_MODE_FIFO) && modes.len() > 0 {
        assert(modes[0] == modes[0]);
    }
}

} // verus!
