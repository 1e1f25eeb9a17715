//! The presentable surface: how large it is configured, and which of the
//! formats it offers is taken.

use vstd::prelude::*;

verus! {

/// The least width a surface is first configured with.
pub const MIN_WIDTH: u32 = 800;

/// The least height a surface is first configured with.
pub const MIN_HEIGHT: u32 = 600;

/// The size the surface is configured with, in pixels.
#[derive(Clone, Copy, Debug, PartialEq, Eq, Structural)]
pub struct SurfaceSize {
    pub width: u32,
    pub height: u32,
}

impl SurfaceSize {
    /// The size after a request to resize to `width` by `height`: a request
    /// with a zero side is passed over.
    pub open spec fn resized(self, width: u32, height: u32) -> Self {
        if width == 0 || height == 0 {
            self
        } else {
            SurfaceSize { width, height }
        }
    }

    /// The first configuration for a window of `width` by `height`: each
    /// side at least the minimum.
    pub fn initial(width: u32, height: u32) -> (size: Self)
        ensures
            size.width == if width >= MIN_WIDTH {
                width
            } else {
                MIN_WIDTH
            },
            size.height == if height >= MIN_HEIGHT {
                height
            } else {
                MIN_HEIGHT
            },
    {
        SurfaceSize {
            width: if width >= MIN_WIDTH {
                width
            } else {
                MIN_WIDTH
            },
            height: if height >= MIN_HEIGHT {
                height
            } else {
                MIN_HEIGHT
            },
        }
    }

    /// Takes a new window size; tells whether the surface must be
    /// configured again.
    pub fn resize(&mut self, width: u32, height: u32) -> (changed: bool)
        ensures
            *final(self) == old(self).resized(width, height),
            changed == (width != 0 && height != 0),
    {
        if width == 0 || height == 0 {
            false
        } else {
            self.width = width;
            self.height = height;
            true
        }
    }
}

/// The place of the first `true` in `flags`, or their number where none is.
pub open spec fn first_set(flags: Seq<bool>) -> int
    decreases flags.len(),
{
    if flags.len() == 0 {
        0
    } else if flags[0] {
        0
    } else {
        1 + first_set(flags.skip(1))
    }
}

/// The format to take, given for each offered format whether it is sRGB: the
/// first sRGB one, or the first of all where none is.
pub open spec fn preferred(srgb: Seq<bool>) -> int {
    if first_set(srgb) < srgb.len() {
        first_set(srgb)
    } else {
        0
    }
}

/// `first_set` is a place in the sequence that holds `true`, with none
/// before it, or the length where nothing is set.
pub proof fn lemma_first_set(flags: Seq<bool>)
    ensures
        0 <= first_set(flags) <= flags.len(),
        first_set(flags) < flags.len() ==> flags[first_set(flags)],
        forall|i: int| 0 <= i < first_set(flags) ==> !flags[i],
    decreases flags.len(),
{
    if flags.len() > 0 && !flags[0] {
        let rest = flags.skip(1);
        lemma_first_set(rest);
        assert forall|i: int| 0 <= i < first_set(flags) implies !flags[i] by {
            if i > 0 {
                assert(rest[i - 1] == flags[i]);
            }
        }
        if first_set(flags) < flags.len() {
            assert(rest[first_set(rest)] == flags[first_set(flags)]);
        }
    }
}

/// Picks among the offered formats by their sRGB flags.
pub fn preferred_index(srgb: &Vec<bool>) -> (index: usize)
    requires
        srgb@.len() > 0,
    ensures
        index == preferred(srgb@),
        index < srgb@.len(),
{
    let mut i: usize = 0;
    proof {
        lemma_first_set(srgb@);
    }
    while i < srgb.len()
        invariant
            i <= srgb@.len(),
            i <= first_set(srgb@),
            first_set(srgb@) <= srgb@.len(),
            first_set(srgb@) < srgb@.len() ==> srgb@[first_set(srgb@)],
            forall|k: int| 0 <= k < first_set(srgb@) ==> !srgb@[k],
        decreases srgb@.len() - i,
    {
        if srgb[i] {
            return i;
        }
        i = i + 1;
    }
    0
}

#[verifier::external_type_specification]
#[verifier::external_body]
pub struct ExTextureFormat(wgpu::TextureFormat);

/// Whether `format` is one of the sRGB formats, as `wgpu` tells them apart.
pub uninterp spec fn srgb(format: wgpu::TextureFormat) -> bool;

/// `wgpu::TextureFormat::is_srgb`: whether the format is an sRGB one. It
/// depends on the format alone, so the answer is named by `srgb`; which
/// formats those are is not claimed.
#[verifier::external_body]
fn format_is_srgb(format: &wgpu::TextureFormat) -> (b: bool)
    ensures
        b == srgb(*format),
{
    format.is_srgb()
}

/// For each of `formats`, in order, whether it is sRGB.
pub open spec fn srgb_flags(formats: Seq<wgpu::TextureFormat>) -> Seq<bool> {
    Seq::new(formats.len(), |i: int| srgb(formats[i]))
}

/// Picks among the formats a surface offers: the first that is sRGB, or the
/// first of all where none is.
pub fn choose_format(formats: &Vec<wgpu::TextureFormat>) -> (index: usize)
    requires
        formats@.len() > 0,
    ensures
        index == preferred(srgb_flags(formats@)),
        index < formats@.len(),
{
    let mut flags: Vec<bool> = Vec::new();
    let mut i: usize = 0;
    while i < formats.len()
        invariant
            i <= formats@.len(),
            flags@.len() == i,
            forall|k: int| 0 <= k < i ==> flags@[k] == srgb(formats@[k]),
        decreases formats@.len() - i,
    {
        flags.push(format_is_srgb(&formats[i]));
        i = i + 1;
    }
    assert(flags@ =~= srgb_flags(formats@));
    preferred_index(&flags)
}

} // verus!
