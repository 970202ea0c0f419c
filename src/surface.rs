//! Sizes of the presentation surface, its configuration and the depth buffer.
use vstd::prelude::*;

verus! {

/// A size in physical pixels.
#[derive(Clone, Copy, Debug, PartialEq, Eq)]
pub struct SurfaceSize {
    pub width: u32,
    pub height: u32,
}

/// The window size last applied, the size the surface is configured with,
/// and the size the depth buffer was created at.
#[derive(Clone, Copy, Debug, PartialEq, Eq)]
pub struct SurfaceState {
    pub size: SurfaceSize,
    pub config: SurfaceSize,
    pub depth: SurfaceSize,
}

impl SurfaceState {
    /// The depth buffer and the configuration follow the window size.
    pub open spec fn wf(self) -> bool {
        self.config == self.size && self.depth == self.size
    }

    /// A surface configured, with its depth buffer, at `width` by `height`.
    pub fn new(width: u32, height: u32) -> (r: Self)
        ensures
            r.wf(),
            r.size == (SurfaceSize { width, height }),
    {
        let s = SurfaceSize { width, height };
        SurfaceState { size: s, config: s, depth: s }
    }

    /// Applies a new window size. Only a size with both sides positive is taken:
    /// then the surface is to be reconfigured and the depth buffer rebuilt, and the
    /// result is `true`. A zero-area size changes nothing.
    pub fn resize(&mut self, width: u32, height: u32) -> (r: bool)
        requires
            old(self).wf(),
        ensures
            final(self).wf(),
            r == (width > 0 && height > 0),
            r ==> final(self).size == (SurfaceSize { width, height }),
            !r ==> *final(self) == *old(self),
    {
        if width > 0 && height > 0 {
            let s = SurfaceSize { width, height };
            self.size = s;
            self.config = s;
            self.depth = s;
            true
        } else {
            false
        }
    }
}

/// Index of the surface format to use, given for each offered format whether it
/// is sRGB: the first sRGB one, else the first one; none when nothing is offered.
pub fn choose_surface_format(is_srgb: &Vec<bool>) -> (r: Option<usize>)
    ensures
        is_srgb.len() == 0 <==> r is None,
        r matches Some(i) ==> i < is_srgb.len(),
        r matches Some(i) ==> (is_srgb@[i as int] || i == 0),
        r matches Some(i) ==> forall|j: int| 0 <= j < i ==> !#[trigger] is_srgb@[j],
        r matches Some(i) ==> !is_srgb@[i as int] ==> forall|j: int| 0 <= j < is_srgb.len() ==> !#[trigger] is_srgb@[j],
{
    let mut i: usize = 0;
    while i < is_srgb.len()
        invariant
            i <= is_srgb.len(),
            forall|j: int| 0 <= j < i ==> !#[trigger] is_srgb@[j],
        decreases is_srgb.len() - i,
    {
        if is_srgb[i] {
            return Some(i);
        }
        i = i + 1;
    }
    if is_srgb.len() == 0 {
        None
    } else {
        Some(0)
    }
}

} // verus!
