//! The presentable surface's configuration: how a format is selected from
//! the adapter's capability list, how the configuration is derived at
//! startup, and how it reacts to resize requests.

use vstd::prelude::*;

verus! {

/// A physical pixel size reported by the window system.
#[derive(Clone, Copy, PartialEq, Eq, Structural, Debug)]
pub struct Extent {
    pub width: u32,
    pub height: u32,
}

/// One pixel format the adapter reports for a surface, reduced to what the
/// configuration rule reads: an identifying code (the platform loop keys its
/// own format table by it) and whether the format is gamma-correct (sRGB).
#[derive(Clone, Copy, PartialEq, Eq, Structural, Debug)]
pub struct FormatInfo {
    pub code: u32,
    pub srgb: bool,
}

/// The surface capabilities the adapter reports: candidate formats, present
/// modes and alpha modes, each list in the backend's preference order.
/// Present and alpha modes are carried as codes into the platform's tables.
pub struct SurfaceCaps {
    pub formats: Vec<FormatInfo>,
    pub present_modes: Vec<u32>,
    pub alpha_modes: Vec<u32>,
}

/// Whether some format in the list is sRGB.
pub open spec fn has_srgb(formats: Seq<FormatInfo>) -> bool {
    exists|i: int| 0 <= i < formats.len() && formats[i].srgb
}

/// Whether index `i` is the first sRGB entry of the list.
pub open spec fn is_first_srgb(formats: Seq<FormatInfo>, i: int) -> bool {
    &&& 0 <= i < formats.len()
    &&& formats[i].srgb
    &&& forall|j: int| 0 <= j < i ==> !formats[j].srgb
}

/// At most one index is the first sRGB entry.
pub proof fn lemma_first_srgb_unique(formats: Seq<FormatInfo>, i: int, j: int)
    requires
        is_first_srgb(formats, i),
        is_first_srgb(formats, j),
    ensures
        i == j,
{
    if i < j {
        assert(!formats[i].srgb);
    } else if j < i {
        assert(!formats[j].srgb);
    }
}

/// The format the configuration rule selects: the first sRGB format in list
/// order, or the first reported format when none is sRGB.
pub open spec fn selected_format(formats: Seq<FormatInfo>) -> FormatInfo {
    if has_srgb(formats) {
        formats[choose|i: int| is_first_srgb(formats, i)]
    } else {
        formats[0]
    }
}

/// Selects the surface format from the adapter's reported list: the first
/// sRGB format in list order, falling back to the first reported format.
pub fn select_format(formats: &Vec<FormatInfo>) -> (r: FormatInfo)
    requires
        formats@.len() > 0,
    ensures
        r == selected_format(formats@),
{
    let n = formats.len();
    let mut k: usize = 0;
    while k < n
        invariant
            n == formats@.len(),
            k <= n,
            forall|j: int| 0 <= j < k ==> !formats@[j].srgb,
        decreases n - k,
    {
        if formats[k].srgb {
            proof {
                assert(is_first_srgb(formats@, k as int));
                let w = choose|i: int| is_first_srgb(formats@, i);
                lemma_first_srgb_unique(formats@, w, k as int);
            }
            return formats[k];
        }
        k += 1;
    }
    proof {
        assert(!has_srgb(formats@));
    }
    formats[0]
}

/// Law: format selection is deterministic — whenever the capability list
/// has an sRGB entry, the selected format is the first sRGB format in list
/// order.
pub proof fn lemma_selected_format_first_srgb(formats: Seq<FormatInfo>, i: int)
    requires
        is_first_srgb(formats, i),
    ensures
        selected_format(formats) == formats[i],
{
    assert(has_srgb(formats));
    let w = choose|k: int| is_first_srgb(formats, k);
    lemma_first_srgb_unique(formats, w, i);
}

/// Law: with no sRGB entry in the capability list, the selected format is
/// the first reported format.
pub proof fn lemma_selected_format_fallback(formats: Seq<FormatInfo>)
    requires
        formats.len() > 0,
        !has_srgb(formats),
    ensures
        selected_format(formats) == formats[0],
{
}

/// The presentable surface configuration. Present and alpha modes are the
/// codes of the chosen entries in the capability lists.
#[derive(Clone, Copy, PartialEq, Eq, Structural, Debug)]
pub struct SurfaceConfig {
    pub format: FormatInfo,
    pub width: u32,
    pub height: u32,
    pub present_mode: u32,
    pub alpha_mode: u32,
}

/// The configuration after a resize request: a request with a zero dimension
/// is rejected outright, any other updates the stored size in place.
pub open spec fn resized(c: SurfaceConfig, s: Extent) -> SurfaceConfig {
    if s.width > 0 && s.height > 0 {
        SurfaceConfig { width: s.width, height: s.height, ..c }
    } else {
        c
    }
}

impl SurfaceConfig {
    /// Both dimensions of an applied configuration are positive: a
    /// degenerate surface is never configured.
    pub open spec fn wf(self) -> bool {
        self.width > 0 && self.height > 0
    }

    /// Derives the startup configuration from the adapter's capabilities and
    /// the window's current physical size: the first sRGB format (else the
    /// first reported), and the backend-preferred present and alpha modes.
    pub fn configure(caps: &SurfaceCaps, size: Extent) -> (c: SurfaceConfig)
        requires
            caps.formats@.len() > 0,
            caps.present_modes@.len() > 0,
            caps.alpha_modes@.len() > 0,
            size.width > 0,
            size.height > 0,
        ensures
            c.format == selected_format(caps.formats@),
            c.width == size.width,
            c.height == size.height,
            c.present_mode == caps.present_modes@[0],
            c.alpha_mode == caps.alpha_modes@[0],
            c.wf(),
    {
        let format = select_format(&caps.formats);
        SurfaceConfig {
            format,
            width: size.width,
            height: size.height,
            present_mode: caps.present_modes[0],
            alpha_mode: caps.alpha_modes[0],
        }
    }

    /// Applies a resize request: a no-op when either dimension is zero,
    /// otherwise the stored width and height become the request's values and
    /// nothing else changes. Returns whether the request was applied, which
    /// is when the surface must be reconfigured.
    pub fn resize(&mut self, new_size: Extent) -> (applied: bool)
        ensures
            applied == (new_size.width > 0 && new_size.height > 0),
            *final(self) == resized(*old(self), new_size),
            !applied ==> *final(self) == *old(self),
            applied ==> final(self).width == new_size.width
                && final(self).height == new_size.height
                && final(self).format == old(self).format
                && final(self).present_mode == old(self).present_mode
                && final(self).alpha_mode == old(self).alpha_mode,
            old(self).wf() ==> final(self).wf(),
    {
        if new_size.width > 0 && new_size.height > 0 {
            self.width = new_size.width;
            self.height = new_size.height;
            true
        } else {
            false
        }
    }
}

} // verus!
