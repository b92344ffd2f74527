//! Deriving the surface configuration from the capabilities the adapter
//! reports: the selected format, the first presentation and alpha modes in
//! list order, the window's pixel size, and a frame latency of two.

use vstd::prelude::*;
use crate::formats::select_format;
use crate::formats::selected_format;

verus! {

/// The graphics layer's presentation mode; opaque to verification.
#[verifier::external_type_specification]
#[verifier::external_body]
pub struct ExPresentMode(wgpu::PresentMode);

/// The graphics layer's alpha compositing mode; opaque to verification.
#[verifier::external_type_specification]
#[verifier::external_body]
pub struct ExCompositeAlphaMode(wgpu::CompositeAlphaMode);

/// The negotiated surface configuration. The caller applies it with
/// render-attachment usage and no extra view-format reinterpretations.
#[derive(Clone, Copy, Debug)]
pub struct SurfaceConfig {
    pub format: wgpu::TextureFormat,
    pub width: u32,
    pub height: u32,
    pub present_mode: wgpu::PresentMode,
    pub alpha_mode: wgpu::CompositeAlphaMode,
    pub desired_maximum_frame_latency: u32,
}

/// Why a configuration could not be derived: the adapter reported an empty
/// capability list.
#[derive(Clone, Copy, Debug, PartialEq, Eq, Structural)]
pub enum NegotiateError {
    NoFormats,
    NoPresentModes,
    NoAlphaModes,
}

/// The configuration the policy derives from non-empty capability lists.
pub open spec fn spec_config(
    formats: Seq<wgpu::TextureFormat>,
    present_modes: Seq<wgpu::PresentMode>,
    alpha_modes: Seq<wgpu::CompositeAlphaMode>,
    width: u32,
    height: u32,
) -> SurfaceConfig {
    SurfaceConfig {
        format: selected_format(formats),
        width,
        height,
        present_mode: present_modes[0],
        alpha_mode: alpha_modes[0],
        desired_maximum_frame_latency: 2,
    }
}

/// Derive the surface configuration for a window of the given pixel size
/// from the capability lists the adapter reports. Succeeds exactly when
/// every list is non-empty; each empty list is reported in list order.
pub fn derive_config(
    formats: &Vec<wgpu::TextureFormat>,
    present_modes: &Vec<wgpu::PresentMode>,
    alpha_modes: &Vec<wgpu::CompositeAlphaMode>,
    width: u32,
    height: u32,
) -> (r: Result<SurfaceConfig, NegotiateError>)
    ensures
        formats@.len() > 0 && present_modes@.len() > 0 && alpha_modes@.len() > 0 ==> r == Ok::<
            SurfaceConfig,
            NegotiateError,
        >(spec_config(formats@, present_modes@, alpha_modes@, width, height)),
        formats@.len() == 0 ==> r == Err::<SurfaceConfig, NegotiateError>(
            NegotiateError::NoFormats,
        ),
        formats@.len() > 0 && present_modes@.len() == 0 ==> r == Err::<
            SurfaceConfig,
            NegotiateError,
        >(NegotiateError::NoPresentModes),
        formats@.len() > 0 && present_modes@.len() > 0 && alpha_modes@.len() == 0 ==> r == Err::<
            SurfaceConfig,
            NegotiateError,
        >(NegotiateError::NoAlphaModes),
{
    match select_format(formats) {
        None => Err(NegotiateError::NoFormats),
        Some(format) => {
            if present_modes.len() == 0 {
                Err(NegotiateError::NoPresentModes)
            } else if alpha_modes.len() == 0 {
                Err(NegotiateError::NoAlphaModes)
            } else {
                Ok(
                    SurfaceConfig {
                        format,
                        width,
                        height,
                        present_mode: present_modes[0],
                        alpha_mode: alpha_modes[0],
                        desired_maximum_frame_latency: 2,
                    },
                )
            }
        },
    }
}

/// The same configuration with its pixel size patched to a new value, as
/// resize demands: width and height change, nothing else does.
pub open spec fn spec_resized(c: SurfaceConfig, width: u32, height: u32) -> SurfaceConfig {
    SurfaceConfig { width, height, ..c }
}

/// Patch the stored configuration to a window's new pixel size.
pub fn resized(c: &SurfaceConfig, width: u32, height: u32) -> (r: SurfaceConfig)
    ensures
        r == spec_resized(*c, width, height),
{
    SurfaceConfig {
        format: c.format,
        width,
        height,
        present_mode: c.present_mode,
        alpha_mode: c.alpha_mode,
        desired_maximum_frame_latency: c.desired_maximum_frame_latency,
    }
}

} // verus!
