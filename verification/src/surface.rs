//! The presentation surface: the size of the render target, the surface
//! configuration, and the policy that picks a configuration from what the
//! surface reports.

use vstd::prelude::*;

verus! {

/// Pixel dimensions of the render target. It mirrors the physical size of the
/// window, so either dimension may be zero while the window is minimized.
#[derive(Clone, Copy, Debug, PartialEq, Eq, Structural)]
pub struct TargetSize {
    pub width: u32,
    pub height: u32,
}

impl TargetSize {
    /// A size can back a surface only when both dimensions are strictly positive.
    pub open spec fn drawable(self) -> bool {
        self.width > 0 && self.height > 0
    }

    /// Whether both dimensions are strictly positive.
    #[verifier::when_used_as_spec(drawable)]
    pub fn is_drawable(self) -> (r: bool)
        ensures
            r == self.drawable(),
    {
        self.width > 0 && self.height > 0
    }
}

/// `wgpu::TextureFormat`, carried through as an opaque value.
#[verifier::external_type_specification]
#[verifier::external_body]
pub struct ExTextureFormat(wgpu::TextureFormat);

/// `wgpu::PresentMode`, carried through as an opaque value.
#[verifier::external_type_specification]
#[verifier::external_body]
pub struct ExPresentMode(wgpu::PresentMode);

/// `wgpu::CompositeAlphaMode`, carried through as an opaque value.
#[verifier::external_type_specification]
#[verifier::external_body]
pub struct ExCompositeAlphaMode(wgpu::CompositeAlphaMode);

/// Whether `wgpu::TextureFormat::is_srgb` holds of a format. The method
/// compares the format with its linear counterpart, so its answer depends on
/// the format alone.
pub uninterp spec fn srgb(format: wgpu::TextureFormat) -> bool;

/// Calls `wgpu::TextureFormat::is_srgb`. Taken on trust: the call returns
/// what `srgb` names for the format, which says no more than that the answer
/// depends on the format alone.
#[verifier::external_body]
fn format_is_srgb(format: wgpu::TextureFormat) -> (r: bool)
    ensures
        r == srgb(format),
{
    format.is_srgb()
}

/// The reconfigurable description held by the presentation surface.
#[derive(Clone, Copy, Debug, PartialEq, Eq)]
pub struct SurfaceConfig {
    pub format: wgpu::TextureFormat,
    pub width: u32,
    pub height: u32,
    pub present_mode: wgpu::PresentMode,
    pub alpha_mode: wgpu::CompositeAlphaMode,
}

impl SurfaceConfig {
    /// The dimensions the configuration describes.
    pub open spec fn size(self) -> TargetSize {
        TargetSize { width: self.width, height: self.height }
    }

    /// Only a configuration of positive area may be applied to a surface.
    pub open spec fn drawable(self) -> bool {
        self.size().drawable()
    }

    /// The same configuration with the dimensions replaced by those of `size`.
    pub open spec fn sized(self, size: TargetSize) -> SurfaceConfig {
        SurfaceConfig { width: size.width, height: size.height, ..self }
    }

    /// Replaces the dimensions by those of `size` and keeps the rest.
    pub fn with_size(self, size: TargetSize) -> (r: SurfaceConfig)
        ensures
            r == self.sized(size),
    {
        SurfaceConfig {
            format: self.format,
            width: size.width,
            height: size.height,
            present_mode: self.present_mode,
            alpha_mode: self.alpha_mode,
        }
    }
}

/// `i` is the position of the first `true` in `flags`.
pub open spec fn leads(flags: Seq<bool>, i: int) -> bool {
    &&& 0 <= i < flags.len()
    &&& flags[i]
    &&& forall|j: int| 0 <= j < i ==> !flags[j]
}

/// The position the selection policy prefers in a list whose entries are
/// flagged as gamma-corrected or not: the first flagged entry, and the first
/// entry of all where none is flagged.
pub open spec fn preferred(flags: Seq<bool>) -> int {
    if exists|i: int| leads(flags, i) {
        choose|i: int| leads(flags, i)
    } else {
        0
    }
}

/// At most one position leads a list.
pub proof fn lemma_leads_unique(flags: Seq<bool>, i: int, j: int)
    requires
        leads(flags, i),
        leads(flags, j),
    ensures
        i == j,
{
    if i < j {
        assert(!flags[i]);
    } else if j < i {
        assert(!flags[j]);
    }
}

/// In a non-empty list the preferred position lies within the list. Where
/// some entry is flagged it is the first flagged one; where none is, it is
/// the first position.
pub proof fn lemma_preferred_is_first_flagged(flags: Seq<bool>)
    requires
        flags.len() > 0,
    ensures
        0 <= preferred(flags) < flags.len(),
        (exists|j: int| 0 <= j < flags.len() && flags[j]) ==> leads(flags, preferred(flags)),
        (forall|j: int| 0 <= j < flags.len() ==> !flags[j]) ==> preferred(flags) == 0,
{
    if exists|j: int| 0 <= j < flags.len() && flags[j] {
        let j = choose|j: int| 0 <= j < flags.len() && flags[j];
        lemma_some_position_leads(flags, j);
    } else {
        assert(forall|i: int| !leads(flags, i));
    }
}

/// A list with a flagged entry has a first flagged entry.
proof fn lemma_some_position_leads(flags: Seq<bool>, j: int)
    requires
        0 <= j < flags.len(),
        flags[j],
    ensures
        exists|i: int| leads(flags, i),
    decreases j,
{
    if forall|k: int| 0 <= k < j ==> !flags[k] {
        assert(leads(flags, j));
    } else {
        let k = choose|k: int| 0 <= k < j && flags[k];
        lemma_some_position_leads(flags, k);
    }
}

/// The selection policy on plain flags. `None` is returned for the empty list
/// and for no other.
pub fn preferred_index(flags: &Vec<bool>) -> (r: Option<usize>)
    ensures
        r is None <==> flags@.len() == 0,
        r matches Some(i) ==> {
            &&& i < flags@.len()
            &&& i == preferred(flags@)
            &&& leads(flags@, i as int) || (i == 0 && forall|j: int|
                0 <= j < flags@.len() ==> !flags@[j])
        },
{
    if flags.len() == 0 {
        return None;
    }
    let mut i: usize = 0;
    while i < flags.len()
        invariant
            i <= flags.len(),
            forall|j: int| 0 <= j < i ==> !flags@[j],
        decreases flags.len() - i,
    {
        if flags[i] {
            proof {
                assert(leads(flags@, i as int));
                let k = choose|k: int| leads(flags@, k);
                lemma_leads_unique(flags@, i as int, k);
            }
            return Some(i);
        }
        i += 1;
    }
    assert(forall|k: int| !leads(flags@, k));
    Some(0)
}

/// For each format, whether it is gamma-corrected.
pub open spec fn srgb_flags(formats: Seq<wgpu::TextureFormat>) -> Seq<bool> {
    Seq::new(formats.len(), |i: int| srgb(formats[i]))
}

/// The format the surface is configured with, given the non-empty list the
/// surface reports: the first gamma-corrected one, else the first reported.
pub open spec fn chosen_format(formats: Seq<wgpu::TextureFormat>) -> wgpu::TextureFormat {
    formats[preferred(srgb_flags(formats))]
}

/// Picks the surface format. `None` is returned when the surface reports no
/// format at all, and only then.
pub fn choose_format(formats: &Vec<wgpu::TextureFormat>) -> (r: Option<wgpu::TextureFormat>)
    ensures
        r is None <==> formats@.len() == 0,
        r matches Some(f) ==> f == chosen_format(formats@),
{
    let mut flags: Vec<bool> = Vec::new();
    let mut k: usize = 0;
    while k < formats.len()
        invariant
            k <= formats.len(),
            flags@.len() == k,
            forall|j: int| 0 <= j < k ==> flags@[j] == srgb(formats@[j]),
        decreases formats.len() - k,
    {
        flags.push(format_is_srgb(formats[k]));
        k += 1;
    }
    assert(flags@ =~= srgb_flags(formats@));
    match preferred_index(&flags) {
        Some(i) => Some(formats[i]),
        None => None,
    }
}

} // verus!
