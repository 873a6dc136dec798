//! Choosing the format of the surface: an sRGB-encoded format if the surface
//! offers one, the first format it offers otherwise.

use vstd::prelude::*;

verus! {

#[verifier::external_type_specification]
#[verifier::external_body]
pub struct ExTextureFormat(wgpu::TextureFormat);

/// Whether a texture format is one of the sRGB formats.
pub uninterp spec fn srgb_encoded(format: wgpu::TextureFormat) -> bool;

/// `wgpu::TextureFormat::is_srgb`, which is true for the sRGB formats (those
/// that differ from themselves with the sRGB suffix removed). The answer
/// depends on the format alone; the contract gives it its name and says no
/// more of it.
#[verifier::external_body]
fn format_is_srgb(format: &wgpu::TextureFormat) -> (srgb: bool)
    ensures
        srgb == srgb_encoded(*format),
{
    format.is_srgb()
}

/// For each format, whether it is sRGB-encoded.
pub open spec fn srgb_flags(formats: Seq<wgpu::TextureFormat>) -> Seq<bool> {
    Seq::new(formats.len(), |i: int| srgb_encoded(formats[i]))
}

/// `i` is the place of the preferred entry: the first one that is flagged, or
/// the first one of all where none is flagged.
pub open spec fn is_preferred(flags: Seq<bool>, i: int) -> bool {
    &&& 0 <= i < flags.len()
    &&& forall|j: int| 0 <= j < i ==> !flags[j]
    &&& flags[i] || (i == 0 && forall|j: int| 0 <= j < flags.len() ==> !flags[j])
}

/// `format` is the preferred one among `formats`.
pub open spec fn is_preferred_format(
    formats: Seq<wgpu::TextureFormat>,
    format: wgpu::TextureFormat,
) -> bool {
    exists|i: int| is_preferred(srgb_flags(formats), i) && formats[i] == format
}

/// There is one preferred place at most.
pub proof fn lemma_preferred_is_unique(flags: Seq<bool>, i: int, j: int)
    requires
        is_preferred(flags, i),
        is_preferred(flags, j),
    ensures
        i == j,
{
}

/// The place of the preferred entry of a list of flags: `None` for an empty
/// list and for no other.
pub fn preferred_index(flags: &Vec<bool>) -> (r: Option<usize>)
    ensures
        match r {
            None => flags@.len() == 0,
            Some(i) => is_preferred(flags@, i as int),
        },
{
    if flags.len() == 0 {
        return None;
    }
    let mut i: usize = 0;
    while i < flags.len()
        invariant
            i <= flags@.len(),
            forall|j: int| 0 <= j < i ==> !flags@[j],
        decreases flags@.len() - i,
    {
        if flags[i] {
            return Some(i);
        }
        i = i + 1;
    }
    Some(0)
}

/// Chooses the surface format among those that the surface reports: the
/// first sRGB-encoded one, or the first one of all if none is. An empty list
/// (a surface that the adapter cannot serve) gives `None`.
pub fn select_surface_format(formats: &Vec<wgpu::TextureFormat>) -> (r: Option<
    wgpu::TextureFormat,
>)
    ensures
        match r {
            None => formats@.len() == 0,
            Some(format) => is_preferred_format(formats@, format),
        },
{
    let mut flags: Vec<bool> = Vec::new();
    let mut k: usize = 0;
    while k < formats.len()
        invariant
            k <= formats@.len(),
            flags@ == srgb_flags(formats@).take(k as int),
        decreases formats@.len() - k,
    {
        let srgb = format_is_srgb(&formats[k]);
        flags.push(srgb);
        proof {
            assert(flags@ =~= srgb_flags(formats@).take(k + 1));
        }
        k = k + 1;
    }
    assert(flags@ =~= srgb_flags(formats@));
    match preferred_index(&flags) {
        None => None,
        Some(i) => Some(formats[i]),
    }
}

} // verus!
