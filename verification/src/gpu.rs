//! Trusted declarations for the wgpu values the library works with.
//!
//! The library stores texture formats and presentation modes and hands them
//! back to the caller unchanged; the one thing it reads from them is whether
//! a format is gamma-corrected, through `TextureFormat::is_srgb`.

use vstd::prelude::*;

verus! {

/// Declares wgpu's texture format so it can stand in signatures and fields;
/// the library carries values of it through without reading their insides.
#[verifier::external_type_specification]
#[verifier::external_body]
pub struct ExTextureFormat(wgpu::TextureFormat);

/// Declares wgpu's presentation mode; carried through unread.
#[verifier::external_type_specification]
#[verifier::external_body]
pub struct ExPresentMode(wgpu::PresentMode);

/// Declares wgpu's alpha compositing mode; carried through unread.
#[verifier::external_type_specification]
#[verifier::external_body]
pub struct ExCompositeAlphaMode(wgpu::CompositeAlphaMode);

/// Whether wgpu's `TextureFormat::is_srgb` classifies the format as a
/// gamma-corrected (sRGB) color format.
pub uninterp spec fn is_srgb_format(f: wgpu::TextureFormat) -> bool;

/// Relies on wgpu's `TextureFormat::is_srgb`: whether a format carries the
/// sRGB suffix is a function of the format value alone.
pub assume_specification[ wgpu::TextureFormat::is_srgb ](f: &wgpu::TextureFormat) -> (r: bool)
    ensures
        r == is_srgb_format(*f),
;

} // verus!
