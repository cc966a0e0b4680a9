//! The items of wgpu that the library's logic handles, and the calls it makes into them.
use vstd::prelude::*;

verus! {

#[verifier::external_type_specification]
#[verifier::external_body]
pub struct ExTextureFormat(wgpu::TextureFormat);

#[verifier::external_type_specification]
#[verifier::external_body]
pub struct ExPresentMode(wgpu::PresentMode);

#[verifier::external_type_specification]
#[verifier::external_body]
pub struct ExCompositeAlphaMode(wgpu::CompositeAlphaMode);

/// Declared with its variants, which carry no data, so that errors can be told
/// apart in verified code.
#[verifier::external_type_specification]
pub struct ExSurfaceError(wgpu::SurfaceError);

/// Relies on `wgpu::TextureFormat::is_srgb`: whether the format is one of the
/// gamma-correct (sRGB) variants.
#[verifier::external_body]
pub(crate) fn format_is_srgb(f: &wgpu::TextureFormat) -> (r: bool) {
    f.is_srgb()
}

} // verus!
