//! The choice of the surface's texture format.
use vstd::prelude::*;

verus! {

#[verifier::external_type_specification]
#[verifier::external_body]
pub struct ExTextureFormat(wgpu::TextureFormat);

/// Whether a texture format is one of the sRGB formats, as
/// `wgpu::TextureFormat::is_srgb` answers it.
pub uninterp spec fn spec_format_is_srgb(format: wgpu::TextureFormat) -> bool;

/// Calls `wgpu::TextureFormat::is_srgb`, which says whether the format is
/// one of the sRGB formats (one that differs from its form without the sRGB
/// suffix). The answer depends on the format alone, and is named
/// [`spec_format_is_srgb`].
#[verifier::external_body]
fn format_is_srgb(format: &wgpu::TextureFormat) -> (srgb: bool)
    ensures
        srgb == spec_format_is_srgb(*format),
{
    format.is_srgb()
}

/// For each format, whether it is an sRGB format.
pub open spec fn srgb_flags(formats: Seq<wgpu::TextureFormat>) -> Seq<bool> {
    formats.map_values(|f: wgpu::TextureFormat| spec_format_is_srgb(f))
}

/// Whether `i` is the position of the first `true` in `flags`, or 0 when
/// `flags` holds no `true`.
pub open spec fn is_preferred_index(flags: Seq<bool>, i: int) -> bool {
    &&& 0 <= i < flags.len()
    &&& forall|j: int| 0 <= j < i ==> !#[trigger] flags[j]
    &&& (flags[i] || (i == 0 && forall|j: int| 0 <= j < flags.len() ==> !#[trigger] flags[j]))
}

/// Picks among formats, given which of them are sRGB formats: the first
/// sRGB one, or else the first one.
pub fn preferred_format_index(srgb: &Vec<bool>) -> (index: usize)
    requires
        srgb.len() > 0,
    ensures
        is_preferred_index(srgb@, index as int),
{
    let mut i: usize = 0;
    while i < srgb.len()
        invariant
            0 <= i <= srgb.len(),
            forall|j: int| 0 <= j < i ==> !#[trigger] srgb@[j],
        decreases srgb.len() - i,
    {
        if srgb[i] {
            return i;
        }
        i = i + 1;
    }
    0
}

/// The surface's texture format: the first sRGB format that the surface
/// supports, or else the first format it supports.
pub fn choose_surface_format(formats: &Vec<wgpu::TextureFormat>) -> (format: wgpu::TextureFormat)
    requires
        formats.len() > 0,
    ensures
        exists|i: int| is_preferred_index(srgb_flags(formats@), i) && format == formats@[i],
{
    let mut srgb: Vec<bool> = Vec::new();
    let mut k: usize = 0;
    while k < formats.len()
        invariant
            0 <= k <= formats.len(),
            srgb@.len() == k,
            forall|j: int| 0 <= j < k ==> srgb@[j] == spec_format_is_srgb(formats@[j]),
        decreases formats.len() - k,
    {
        srgb.push(format_is_srgb(&formats[k]));
        k = k + 1;
    }
    let i: usize = preferred_format_index(&srgb);
    let format = formats[i];
    assert(srgb@ =~= srgb_flags(formats@));
    assert(is_preferred_index(srgb_flags(formats@), i as int) && format == formats@[i as int]);
    format
}

/// The mode that the surface uses of those it offers (present modes, alpha
/// modes): the first one offered.
pub fn first_offered<T: Copy>(offered: &Vec<T>) -> (mode: T)
    requires
        offered.len() > 0,
    ensures
        mode == offered@[0],
{
    offered[0]
}

} // verus!
