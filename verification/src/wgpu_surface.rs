//! The swapchain configuration of one display's GPU surface, and the choice
//! of its fixed fields from the capabilities the adapter reports.
//!
//! Format, presentation mode and alpha-compositing mode are chosen once, at
//! creation, from the reported lists; width and height are the only fields
//! that change afterwards, and only through [`WgpuSurface::resize`]. The
//! codes stored here are indices into the reported capability lists; the
//! process that owns the real GPU objects translates them back.

use vstd::prelude::*;

verus! {

/// One entry of a reported capability list: its code (an index into the
/// list as reported) and whether it is the preferred kind — an sRGB-encoded
/// format, or pre-multiplied alpha compositing.
#[derive(Clone, Copy, PartialEq, Eq, Structural, Debug)]
pub struct CapChoice {
    pub code: u32,
    pub preferred: bool,
}

/// The swapchain configuration record. Width and height are the only fields
/// mutated after creation.
#[verifier::ext_equal]
#[derive(Clone, Copy, PartialEq, Eq, Structural, Debug)]
pub struct SurfaceConfig {
    pub format: u32,
    pub width: u32,
    pub height: u32,
    pub present_mode: u32,
    pub alpha_mode: u32,
}

/// The per-display GPU surface state this crate reasons about: the
/// configuration record the real swapchain is configured from.
#[verifier::ext_equal]
#[derive(Clone, Copy, PartialEq, Eq, Structural, Debug)]
pub struct WgpuSurface {
    pub config: SurfaceConfig,
}

/// No entry of the list is preferred.
pub open spec fn no_preferred(caps: Seq<CapChoice>) -> bool {
    forall|j: int| 0 <= j < caps.len() ==> !caps[j].preferred
}

/// `i` is the position of the first preferred entry of the list.
pub open spec fn first_preferred(caps: Seq<CapChoice>, i: int) -> bool {
    &&& 0 <= i < caps.len()
    &&& caps[i].preferred
    &&& forall|j: int| 0 <= j < i ==> !caps[j].preferred
}

/// The code the list selects: its first preferred entry if one exists, its
/// first entry otherwise.
pub open spec fn selected_code(caps: Seq<CapChoice>) -> u32 {
    if exists|i: int| first_preferred(caps, i) {
        caps[choose|i: int| first_preferred(caps, i)].code
    } else {
        caps[0].code
    }
}

/// Returns the code of the first preferred entry, or of the first entry when
/// none is preferred.
pub fn pick_preferred(caps: &Vec<CapChoice>) -> (r: u32)
    requires
        caps.len() > 0,
    ensures
        r == selected_code(caps@),
        no_preferred(caps@) ==> r == caps@[0].code,
        forall|i: int| first_preferred(caps@, i) ==> r == caps@[i].code,
{
    let n = caps.len();
    let mut k: usize = 0;
    while k < n
        invariant
            n == caps.len(),
            k <= n,
            forall|j: int| 0 <= j < k ==> !caps@[j].preferred,
        decreases n - k,
    {
        if caps[k].preferred {
            proof {
                assert(first_preferred(caps@, k as int));
                assert forall|i: int| first_preferred(caps@, i) implies i == k as int by {
                    assert(!(i < k) && !(k < i));
                }
                assert(selected_code(caps@) == caps@[k as int].code);
            }
            return caps[k].code;
        }
        k += 1;
    }
    proof {
        assert(no_preferred(caps@));
        assert(forall|i: int| !first_preferred(caps@, i));
    }
    caps[0].code
}

impl WgpuSurface {
    /// Assembles the configuration for a fresh surface: format and alpha mode
    /// selected from the reported lists (preferring sRGB encoding and
    /// pre-multiplied alpha), the first reported presentation mode, and
    /// placeholder dimensions of 1 by 1 — the display hands the real size
    /// through its first configure event.
    pub fn new(formats: &Vec<CapChoice>, present_modes: &Vec<u32>, alpha_modes: &Vec<CapChoice>) -> (s: Self)
        requires
            formats.len() > 0,
            present_modes.len() > 0,
            alpha_modes.len() > 0,
        ensures
            s.config == (SurfaceConfig {
                format: selected_code(formats@),
                width: 1,
                height: 1,
                present_mode: present_modes@[0],
                alpha_mode: selected_code(alpha_modes@),
            }),
    {
        let format = pick_preferred(formats);
        let alpha_mode = pick_preferred(alpha_modes);
        WgpuSurface {
            config: SurfaceConfig {
                format,
                width: 1,
                height: 1,
                present_mode: present_modes[0],
                alpha_mode,
            },
        }
    }

    /// Replaces the cached width and height of the configuration record; no
    /// other field changes. The caller is responsible for re-applying the
    /// full configuration to the real surface afterwards.
    pub fn resize(&mut self, width: u32, height: u32)
        ensures
            final(self).config == (SurfaceConfig { width, height, ..old(self).config }),
    {
        self.config.width = width;
        self.config.height = height;
    }
}

} // verus!
