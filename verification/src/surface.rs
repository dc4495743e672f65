//! Choosing how the drawing surface is configured from what the adapter
//! supports.

use crate::scene::{at_least_one, clamp_extent};
use vstd::prelude::*;

verus! {

/// How many frames the presentation engine may queue ahead.
pub const FRAME_LATENCY: u32 = 2;

/// Texture formats of the graphics library, carried through unopened.
#[verifier::external_type_specification]
#[verifier::external_body]
pub struct ExTextureFormat(wgpu::TextureFormat);

/// Presentation modes of the graphics library, carried through unopened.
#[verifier::external_type_specification]
#[verifier::external_body]
pub struct ExPresentMode(wgpu::PresentMode);

/// Alpha compositing modes of the graphics library, carried through
/// unopened.
#[verifier::external_type_specification]
#[verifier::external_body]
pub struct ExCompositeAlphaMode(wgpu::CompositeAlphaMode);

/// Whether the graphics library counts a texture format as sRGB. It is a
/// fixed property of the format.
pub uninterp spec fn format_is_srgb(format: wgpu::TextureFormat) -> bool;

/// Calls `wgpu::TextureFormat::is_srgb`, which compares the format with
/// itself stripped of its sRGB suffix. The answer depends on the format
/// alone, and the contract only gives that answer its name.
#[verifier::external_body]
fn is_srgb(format: &wgpu::TextureFormat) -> (srgb: bool)
    ensures
        srgb == format_is_srgb(*format),
{
    format.is_srgb()
}

/// Whether any of the flags is set.
pub open spec fn any_set(flags: Seq<bool>) -> bool {
    exists|i: int| 0 <= i < flags.len() && flags[i]
}

/// Whether `k` is the preferred position among surface formats, given for
/// each format whether it is sRGB: the position of the first sRGB format,
/// or the very first position where no format is sRGB.
pub open spec fn is_preferred(srgb: Seq<bool>, k: int) -> bool {
    &&& 0 <= k < srgb.len()
    &&& forall|j: int| 0 <= j < k ==> !srgb[j]
    &&& if any_set(srgb) {
        srgb[k]
    } else {
        k == 0
    }
}

/// For each format, whether it is sRGB.
pub open spec fn srgb_flags(formats: Seq<wgpu::TextureFormat>) -> Seq<bool> {
    Seq::new(formats.len(), |i: int| format_is_srgb(formats[i]))
}

/// At most one position is preferred.
pub proof fn lemma_preferred_is_unique(srgb: Seq<bool>, a: int, b: int)
    requires
        is_preferred(srgb, a),
        is_preferred(srgb, b),
    ensures
        a == b,
{
}

/// Every non-empty list has a preferred position.
pub proof fn lemma_preferred_exists(srgb: Seq<bool>)
    requires
        srgb.len() > 0,
    ensures
        exists|k: int| is_preferred(srgb, k),
    decreases srgb.len(),
{
    if !any_set(srgb) {
        assert(is_preferred(srgb, 0));
    } else if srgb[0] {
        assert(is_preferred(srgb, 0));
    } else {
        let w: int = choose|i: int| 0 <= i < srgb.len() && srgb[i];
        let rest: Seq<bool> = srgb.drop_first();
        assert(rest[w - 1]);
        lemma_preferred_exists(rest);
        let k: int = choose|k: int| is_preferred(rest, k);
        assert(rest[k]);
        assert forall|j: int| 0 <= j < k + 1 implies !srgb[j] by {
            if j > 0 {
                assert(!rest[j - 1]);
            }
        }
        assert(srgb[k + 1] == rest[k]);
        assert(is_preferred(srgb, k + 1));
    }
}

/// Finds the preferred position among surface formats from their sRGB
/// flags. There is none exactly when the list is empty.
pub fn preferred_format_index(srgb: &Vec<bool>) -> (found: Option<usize>)
    ensures
        found is None <==> srgb@.len() == 0,
        found matches Some(k) ==> is_preferred(srgb@, k as int),
{
    if srgb.len() == 0 {
        return None;
    }
    let mut i: usize = 0;
    while i < srgb.len()
        invariant
            0 <= i <= srgb@.len(),
            forall|j: int| 0 <= j < i ==> !srgb@[j],
        decreases srgb@.len() - i,
    {
        if srgb[i] {
            return Some(i);
        }
        i += 1;
    }
    Some(0)
}

/// Picks the surface format to render to: the first sRGB format the
/// surface supports, or its first format where it supports no sRGB one.
/// There is none exactly when the surface supports no format at all.
pub fn pick_surface_format(formats: &Vec<wgpu::TextureFormat>) -> (picked: Option<
    wgpu::TextureFormat,
>)
    ensures
        picked is None <==> formats@.len() == 0,
        picked matches Some(format) ==> exists|k: int|
            is_preferred(srgb_flags(formats@), k) && format == formats@[k],
{
    let mut flags: Vec<bool> = Vec::new();
    let mut i: usize = 0;
    while i < formats.len()
        invariant
            0 <= i <= formats@.len(),
            flags@ =~= srgb_flags(formats@.take(i as int)),
        decreases formats@.len() - i,
    {
        let srgb: bool = is_srgb(&formats[i]);
        flags.push(srgb);
        i += 1;
    }
    assert(formats@.take(i as int) =~= formats@);
    match preferred_format_index(&flags) {
        Some(k) => Some(formats[k]),
        None => None,
    }
}

/// How the drawing surface is configured: what it stores, how it is
/// presented and blended, and how large it is in pixels.
#[derive(Clone, Copy, Debug)]
pub struct SurfaceSettings {
    pub format: wgpu::TextureFormat,
    pub present_mode: wgpu::PresentMode,
    pub alpha_mode: wgpu::CompositeAlphaMode,
    pub width: u32,
    pub height: u32,
    pub desired_maximum_frame_latency: u32,
}

impl SurfaceSettings {
    /// Whether these are the settings chosen for a canvas of the given size
    /// on a surface with the given capabilities: the preferred format, the
    /// first presentation mode and the first alpha mode on offer, and the
    /// canvas size with each extent raised to at least one pixel.
    pub open spec fn chosen_from(
        &self,
        formats: Seq<wgpu::TextureFormat>,
        present_modes: Seq<wgpu::PresentMode>,
        alpha_modes: Seq<wgpu::CompositeAlphaMode>,
        canvas_width: u32,
        canvas_height: u32,
    ) -> bool {
        &&& exists|k: int|
            is_preferred(srgb_flags(formats), k) && self.format == formats[k]
        &&& present_modes.len() > 0
        &&& self.present_mode == present_modes[0]
        &&& alpha_modes.len() > 0
        &&& self.alpha_mode == alpha_modes[0]
        &&& self.width == at_least_one(canvas_width)
        &&& self.height == at_least_one(canvas_height)
        &&& self.desired_maximum_frame_latency == FRAME_LATENCY
    }

    /// The same settings for a surface of another size.
    pub open spec fn resized(self, width: u32, height: u32) -> SurfaceSettings {
        SurfaceSettings { width, height, ..self }
    }
}

/// Whether a surface with these capabilities can be configured at all: it
/// must offer at least one format, presentation mode and alpha mode.
pub open spec fn configurable(
    formats: Seq<wgpu::TextureFormat>,
    present_modes: Seq<wgpu::PresentMode>,
    alpha_modes: Seq<wgpu::CompositeAlphaMode>,
) -> bool {
    formats.len() > 0 && present_modes.len() > 0 && alpha_modes.len() > 0
}

/// Chooses the settings of the drawing surface for a canvas of the given
/// size. There are none exactly when the surface cannot be configured.
pub fn choose_surface_settings(
    formats: &Vec<wgpu::TextureFormat>,
    present_modes: &Vec<wgpu::PresentMode>,
    alpha_modes: &Vec<wgpu::CompositeAlphaMode>,
    canvas_width: u32,
    canvas_height: u32,
) -> (chosen: Option<SurfaceSettings>)
    ensures
        chosen is Some <==> configurable(formats@, present_modes@, alpha_modes@),
        chosen matches Some(settings) ==> settings.chosen_from(
            formats@,
            present_modes@,
            alpha_modes@,
            canvas_width,
            canvas_height,
        ),
{
    if present_modes.len() == 0 || alpha_modes.len() == 0 {
        return None;
    }
    match pick_surface_format(formats) {
        Some(format) => Some(
            SurfaceSettings {
                format,
                present_mode: present_modes[0],
                alpha_mode: alpha_modes[0],
                width: clamp_extent(canvas_width),
                height: clamp_extent(canvas_height),
                desired_maximum_frame_latency: FRAME_LATENCY,
            },
        ),
        None => None,
    }
}

} // verus!
