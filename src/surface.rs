use vstd::prelude::*;

verus! {

/// Position of the first pixel format marked sRGB-encoded, if any.
pub fn first_srgb(is_srgb: &[bool]) -> (r: Option<usize>)
    ensures
        r matches Some(i) ==> i < is_srgb@.len() && is_srgb@[i as int] && forall|j: int|
            0 <= j < i ==> !#[trigger] is_srgb@[j],
        r is None <==> forall|j: int| 0 <= j < is_srgb@.len() ==> !#[trigger] is_srgb@[j],
{
    let mut i: usize = 0;
    while i < is_srgb.len()
        invariant
            i <= is_srgb@.len(),
            forall|j: int| 0 <= j < i ==> !#[trigger] is_srgb@[j],
        decreases is_srgb@.len() - i,
    {
        if is_srgb[i] {
            return Some(i);
        }
        i = i + 1;
    }
    None
}

#[verifier::external_type_specification]
#[verifier::external_body]
pub struct ExTextureFormat(wgpu::TextureFormat);

/// Whether a pixel format is sRGB-encoded, as wgpu describes it.
pub uninterp spec fn srgb_of(f: wgpu::TextureFormat) -> bool;

/// Relies on wgpu's `TextureFormat::describe`, whose `srgb` field tells whether
/// the format converts colors from and to sRGB; it depends on the format alone.
#[verifier::external_body]
fn is_srgb(format: &wgpu::TextureFormat) -> (r: bool)
    ensures
        r == srgb_of(*format),
{
    format.describe().srgb
}

/// The first sRGB-encoded format among those a surface supports, or `None`
/// when it supports none.
pub fn srgb_format(formats: &[wgpu::TextureFormat]) -> (r: Option<wgpu::TextureFormat>)
    ensures
        r matches Some(f) ==> exists|i: int|
            0 <= i < formats@.len() && formats@[i] == f && srgb_of(f) && forall|j: int|
                0 <= j < i ==> !srgb_of(#[trigger] formats@[j]),
        r is None <==> forall|j: int| 0 <= j < formats@.len() ==> !srgb_of(#[trigger] formats@[j]),
{
    let mut flags: Vec<bool> = Vec::new();
    let mut i: usize = 0;
    while i < formats.len()
        invariant
            i <= formats@.len(),
            flags@.len() == i,
            forall|j: int| 0 <= j < i ==> flags@[j] == srgb_of(#[trigger] formats@[j]),
        decreases formats@.len() - i,
    {
        flags.push(is_srgb(&formats[i]));
        i = i + 1;
    }
    match first_srgb(flags.as_slice()) {
        Some(k) => {
            assert(formats@[k as int] == formats@[k as int] && srgb_of(formats@[k as int]));
            Some(formats[k])
        },
        None => {
            assert forall|j: int| 0 <= j < formats@.len() implies !srgb_of(
                #[trigger] formats@[j],
            ) by {
                assert(!flags@[j]);
            }
            None
        },
    }
}

} // verus!
