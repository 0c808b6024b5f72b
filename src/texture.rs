use vstd::prelude::*;

verus! {

/// A texture on the GPU: the handle under which the host keeps the image,
/// and the image's size in pixels. Draws refer to a texture; they do not own it.
#[derive(Clone, Copy, Debug, PartialEq, Eq, Structural)]
pub struct WglTexture {
    pub texture_data: u32,
    pub w: i32,
    pub h: i32,
}

/// How a texture is sampled between texels.
#[derive(Clone, Copy, Debug, PartialEq, Eq, Structural)]
pub enum Filter {
    Nearest,
    Linear,
}

/// The sampling parameters that a texture is created with.
#[derive(Clone, Copy, Debug, PartialEq, Eq, Structural)]
pub struct Sampling {
    pub min_filter: Filter,
    pub mag_filter: Filter,
    /// Clamp to the edge on both axes; when false, no wrap mode is set.
    pub clamp_to_edge: bool,
}

impl WglTexture {
    /// A texture is drawable when both of its sides are positive.
    pub open spec fn is_valid(&self) -> bool {
        self.w > 0 && self.h > 0
    }

    /// Sampling for the backing store of a render target: nearest filtering,
    /// no wrap configuration.
    pub fn render_target_sampling() -> (r: Sampling)
        ensures
            r == (Sampling { min_filter: Filter::Nearest, mag_filter: Filter::Nearest, clamp_to_edge: false }),
    {
        Sampling { min_filter: Filter::Nearest, mag_filter: Filter::Nearest, clamp_to_edge: false }
    }

    /// Sampling for a texture decoded from an image: linear filtering,
    /// clamped to the edge on both axes.
    pub fn image_sampling() -> (r: Sampling)
        ensures
            r == (Sampling { min_filter: Filter::Linear, mag_filter: Filter::Linear, clamp_to_edge: true }),
    {
        Sampling { min_filter: Filter::Linear, mag_filter: Filter::Linear, clamp_to_edge: true }
    }
}

} // verus!
