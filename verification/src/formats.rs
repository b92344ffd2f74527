//! Surface-format selection: prefer the first sRGB-encoded entry of the
//! capability list, fall back to the first entry in list order.

use vstd::prelude::*;

verus! {

/// The graphics layer's texture format; opaque to verification, carried
/// through the negotiation logic by value.
#[verifier::external_type_specification]
#[verifier::external_body]
pub struct ExTextureFormat(wgpu::TextureFormat);

/// Whether a format is sRGB-encoded: the (unstated) meaning of
/// `wgpu::TextureFormat::is_srgb`, a function of the format value alone.
pub uninterp spec fn format_is_srgb(f: wgpu::TextureFormat) -> bool;

/// Relies on `wgpu::TextureFormat::is_srgb`: true exactly for the formats
/// that carry an sRGB suffix, computed from the format value alone.
pub assume_specification[ wgpu::TextureFormat::is_srgb ](f: &wgpu::TextureFormat) -> (r: bool)
    ensures
        r == format_is_srgb(*f),
;

/// Index of the first sRGB-encoded format at or after position `i`, if any.
pub open spec fn first_srgb_at(s: Seq<wgpu::TextureFormat>, i: nat) -> Option<nat>
    decreases s.len() - i,
{
    if i >= s.len() {
        None
    } else if format_is_srgb(s[i as int]) {
        Some(i)
    } else {
        first_srgb_at(s, (i + 1) as nat)
    }
}

/// The format the negotiation policy selects from a non-empty capability
/// list: the first sRGB-encoded entry, or the first entry when none is.
pub open spec fn selected_format(s: Seq<wgpu::TextureFormat>) -> wgpu::TextureFormat
    recommends
        s.len() > 0,
{
    match first_srgb_at(s, 0) {
        Some(i) => s[i as int],
        None => s[0],
    }
}

/// Apply the format-selection policy to the capability list reported by the
/// platform; `None` exactly when the list is empty.
pub fn select_format(formats: &Vec<wgpu::TextureFormat>) -> (r: Option<wgpu::TextureFormat>)
    ensures
        r is Some <==> formats@.len() > 0,
        formats@.len() > 0 ==> r == Some(selected_format(formats@)),
{
    let n: usize = formats.len();
    let mut i: usize = 0;
    while i < n
        invariant
            n == formats@.len(),
            i <= n,
            first_srgb_at(formats@, 0) == first_srgb_at(formats@, i as nat),
            forall|j: int| 0 <= j < i ==> !format_is_srgb(formats@[j]),
        decreases n - i,
    {
        if formats[i].is_srgb() {
            return Some(formats[i]);
        }
        i = i + 1;
    }
    if n > 0 {
        Some(formats[0])
    } else {
        None
    }
}

} // verus!
