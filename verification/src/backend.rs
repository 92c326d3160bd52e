//! The graphics backend's value types, and the one query on them that the
//! negotiation logic depends on.

use vstd::prelude::*;

verus! {

/// `wgpu::TextureFormat`, carried through as an opaque value.
#[verifier::external_type_specification]
#[verifier::external_body]
pub struct ExTextureFormat(wgpu::TextureFormat);

/// `wgpu::PresentMode`, carried through as an opaque value.
#[verifier::external_type_specification]
#[verifier::external_body]
pub struct ExPresentMode(wgpu::PresentMode);

/// `wgpu::CompositeAlphaMode`, carried through as an opaque value.
#[verifier::external_type_specification]
#[verifier::external_body]
pub struct ExCompositeAlphaMode(wgpu::CompositeAlphaMode);

/// Whether the backend classifies `format` as gamma-corrected (sRGB): the
/// `srgb` flag of `wgpu::TextureFormat::describe`.
pub uninterp spec fn format_is_srgb(format: wgpu::TextureFormat) -> bool;

/// Calls `wgpu::TextureFormat::describe` and picks the `srgb` field of the
/// description. The flag is a total function of the format value alone; the
/// contract only gives it a name.
#[verifier::external_body]
pub(crate) fn is_srgb(format: &wgpu::TextureFormat) -> (flag: bool)
    ensures
        flag == format_is_srgb(*format),
{
    format.describe().srgb
}

/// The gamma-correction flag of every format of `formats`, in order.
pub fn srgb_flags(formats: &Vec<wgpu::TextureFormat>) -> (flags: Vec<bool>)
    ensures
        flags@.len() == formats@.len(),
        forall|i: int| 0 <= i < formats@.len() ==> flags@[i] == format_is_srgb(#[trigger] formats@[i]),
{
    let mut flags: Vec<bool> = Vec::new();
    let mut i: usize = 0;
    while i < formats.len()
        invariant
            i <= formats@.len(),
            flags@.len() == i,
            forall|j: int| 0 <= j < i ==> flags@[j] == format_is_srgb(#[trigger] formats@[j]),
        decreases formats@.len() - i,
    {
        flags.push(is_srgb(&formats[i]));
        i += 1;
    }
    flags
}

} // verus!
