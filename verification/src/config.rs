//! The presentation configuration and how it is computed from the surface's
//! capabilities.

use vstd::prelude::*;
use crate::gpu::is_srgb_format;

verus! {

/// The capability lists a surface reports for a chosen adapter: the
/// supported texture formats, presentation modes and alpha modes, each in
/// the adapter's preference order.
#[derive(Debug)]
pub struct SurfaceCaps {
    pub formats: Vec<wgpu::TextureFormat>,
    pub present_modes: Vec<wgpu::PresentMode>,
    pub alpha_modes: Vec<wgpu::CompositeAlphaMode>,
}

impl SurfaceCaps {
    /// A surface compatible with the adapter reports at least one entry in
    /// each list.
    pub open spec fn wf(self) -> bool {
        &&& self.formats@.len() > 0
        &&& self.present_modes@.len() > 0
        &&& self.alpha_modes@.len() > 0
    }
}

/// The active presentation configuration. The output usage is fixed to
/// render-attachment and is attached when the configuration is applied to
/// the surface, outside this library.
#[derive(Clone, Copy, Debug, PartialEq, Eq)]
pub struct SurfaceConfig {
    pub format: wgpu::TextureFormat,
    pub width: u32,
    pub height: u32,
    pub present_mode: wgpu::PresentMode,
    pub alpha_mode: wgpu::CompositeAlphaMode,
    pub desired_maximum_frame_latency: u32,
}

impl SurfaceConfig {
    /// The same configuration with its extent replaced.
    pub open spec fn with_size(self, size: (u32, u32)) -> SurfaceConfig {
        (SurfaceConfig { width: size.0, height: size.1, ..self })
    }
}

/// True when some format in the list is gamma-corrected.
pub open spec fn has_srgb(s: Seq<wgpu::TextureFormat>) -> bool {
    exists|i: int| 0 <= i < s.len() && is_srgb_format(s[i])
}

/// The selected pixel format: the first gamma-corrected format of the list
/// when one exists, and the list's first format otherwise.
pub open spec fn is_selected_format(s: Seq<wgpu::TextureFormat>, f: wgpu::TextureFormat) -> bool {
    if has_srgb(s) {
        exists|i: int|
            0 <= i < s.len() && f == s[i] && is_srgb_format(s[i])
                && (forall|j: int| 0 <= j < i ==> !is_srgb_format(s[j]))
    } else {
        f == s[0]
    }
}

/// What the configuration built from `caps` at `size` holds: the selected
/// format, the first supported present and alpha modes, the given extent,
/// and an in-flight frame latency of two.
pub open spec fn config_for(caps: SurfaceCaps, size: (u32, u32), c: SurfaceConfig) -> bool {
    &&& is_selected_format(caps.formats@, c.format)
    &&& c.width == size.0
    &&& c.height == size.1
    &&& c.present_mode == caps.present_modes@[0]
    &&& c.alpha_mode == caps.alpha_modes@[0]
    &&& c.desired_maximum_frame_latency == 2
}

/// Select the surface's pixel format: the first standard gamma-corrected
/// color format among the supported ones, falling back to the first
/// supported format when none is gamma-corrected.
pub fn select_surface_format(formats: &Vec<wgpu::TextureFormat>) -> (r: wgpu::TextureFormat)
    requires
        formats@.len() > 0,
    ensures
        is_selected_format(formats@, r),
{
    let n = formats.len();
    let mut i: usize = 0;
    while i < n
        invariant
            n == formats@.len(),
            0 <= i <= n,
            forall|j: int| 0 <= j < i ==> !is_srgb_format(formats@[j]),
        decreases n - i,
    {
        if formats[i].is_srgb() {
            return formats[i];
        }
        i += 1;
    }
    formats[0]
}

/// Build the presentation configuration from the reported capabilities and
/// the recorded physical size.
pub fn build_config(caps: &SurfaceCaps, size: (u32, u32)) -> (c: SurfaceConfig)
    requires
        caps.wf(),
    ensures
        config_for(*caps, size, c),
{
    SurfaceConfig {
        format: select_surface_format(&caps.formats),
        width: size.0,
        height: size.1,
        present_mode: caps.present_modes[0],
        alpha_mode: caps.alpha_modes[0],
        desired_maximum_frame_latency: 2,
    }
}

} // verus!
