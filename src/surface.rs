//! Choices made when a window's GPU surface is set up: a texture format the
//! toolkit's blending is correct on, and a composite alpha mode that lets
//! the window be transparent where the platform offers one.
use vstd::prelude::*;

verus! {

/// A surface texture format, reduced to what the choice reads: the four
/// 8-bit RGBA and BGRA formats by name, any other by whether it is sRGB.
#[derive(PartialEq, Eq, Structural, Clone, Copy, Debug)]
pub enum TextureFormat {
    Rgba8Unorm,
    Rgba8UnormSrgb,
    Bgra8Unorm,
    Bgra8UnormSrgb,
    Other { srgb: bool },
}

/// How the platform composites a window's alpha.
#[derive(PartialEq, Eq, Structural, Clone, Copy, Debug)]
pub enum CompositeAlphaMode {
    Auto,
    Opaque,
    PreMultiplied,
    PostMultiplied,
    Inherit,
}

/// Whether the format stores colour sRGB-encoded.
pub open spec fn is_srgb(f: TextureFormat) -> bool {
    match f {
        TextureFormat::Rgba8UnormSrgb | TextureFormat::Bgra8UnormSrgb => true,
        TextureFormat::Other { srgb } => srgb,
        _ => false,
    }
}

/// A format the toolkit draws on as it expects: 8-bit RGBA or BGRA, not
/// sRGB-encoded.
pub open spec fn toolkit_format(f: TextureFormat) -> bool {
    !is_srgb(f) && match f {
        TextureFormat::Other { .. } => false,
        _ => true,
    }
}

/// An alpha mode that lets what is behind the window show through.
pub open spec fn see_through(m: CompositeAlphaMode) -> bool {
    m != CompositeAlphaMode::Opaque
}

/// Tests whether a format is sRGB-encoded.
pub fn format_is_srgb(f: TextureFormat) -> (r: bool)
    ensures
        r == is_srgb(f),
{
    match f {
        TextureFormat::Rgba8UnormSrgb | TextureFormat::Bgra8UnormSrgb => true,
        TextureFormat::Other { srgb } => srgb,
        _ => false,
    }
}

/// The position of the surface format to use: the first format the toolkit
/// draws on as it expects, or the first format offered if there is none.
pub fn pick_surface_format(formats: &Vec<TextureFormat>) -> (r: usize)
    requires
        formats@.len() > 0,
    ensures
        r < formats@.len(),
        forall|j: int| 0 <= j < r ==> !toolkit_format(#[trigger] formats@[j]),
        toolkit_format(formats@[r as int]) || (r == 0 && forall|j: int|
            0 <= j < formats@.len() ==> !toolkit_format(#[trigger] formats@[j])),
{
    let mut i: usize = 0;
    while i < formats.len()
        invariant
            i <= formats@.len(),
            forall|j: int| 0 <= j < i ==> !toolkit_format(#[trigger] formats@[j]),
        decreases formats@.len() - i,
    {
        let f = formats[i];
        let named = match f {
            TextureFormat::Other { .. } => false,
            _ => true,
        };
        if !format_is_srgb(f) && named {
            return i;
        }
        i = i + 1;
    }
    0
}

/// The position of the alpha mode to use: the first one that lets what is
/// behind the window show through, or the first mode offered if there is
/// none.
pub fn pick_alpha_mode(modes: &Vec<CompositeAlphaMode>) -> (r: usize)
    requires
        modes@.len() > 0,
    ensures
        r < modes@.len(),
        forall|j: int| 0 <= j < r ==> !see_through(#[trigger] modes@[j]),
        see_through(modes@[r as int]) || (r == 0 && forall|j: int|
            0 <= j < modes@.len() ==> !see_through(#[trigger] modes@[j])),
{
    let mut i: usize = 0;
    while i < modes.len()
        invariant
            i <= modes@.len(),
            forall|j: int| 0 <= j < i ==> !see_through(#[trigger] modes@[j]),
        decreases modes@.len() - i,
    {
        if modes[i] != CompositeAlphaMode::Opaque {
            return i;
        }
        i = i + 1;
    }
    0
}

/// What the choice of a GL framebuffer configuration reads of one.
#[derive(PartialEq, Eq, Structural, Clone, Copy, Debug)]
pub struct GlConfigTraits {
    pub supports_transparency: bool,
    pub num_samples: u8,
}

/// Whether configuration `c` wins over the one chosen so far: it adds
/// transparency, or it has more samples.
pub open spec fn gl_prefers(c: GlConfigTraits, chosen: GlConfigTraits) -> bool {
    (c.supports_transparency && !chosen.supports_transparency) || c.num_samples > chosen.num_samples
}

/// The position of the configuration chosen from a list, going through it
/// in order and moving to each one that wins over the current choice.
pub open spec fn gl_choice(s: Seq<GlConfigTraits>) -> int
    decreases s.len(),
{
    if s.len() <= 1 {
        0
    } else {
        let a = gl_choice(s.drop_last());
        if gl_prefers(s.last(), s[a]) {
            s.len() - 1
        } else {
            a
        }
    }
}

/// Chooses among GL framebuffer configurations, preferring transparency,
/// then more samples for smoother edges; gives the position of the choice.
pub fn gl_config_picker(configs: &Vec<GlConfigTraits>) -> (r: usize)
    requires
        configs@.len() > 0,
    ensures
        r as int == gl_choice(configs@),
        r < configs@.len(),
{
    let mut chosen: usize = 0;
    let mut i: usize = 1;
    assert(configs@.subrange(0, 1).len() == 1);
    while i < configs.len()
        invariant
            1 <= i <= configs@.len(),
            chosen < i,
            chosen as int == gl_choice(configs@.subrange(0, i as int)),
        decreases configs@.len() - i,
    {
        let c = configs[i];
        let a = configs[chosen];
        proof {
            let next = configs@.subrange(0, i as int + 1);
            assert(next.drop_last() =~= configs@.subrange(0, i as int));
            assert(next[chosen as int] == a);
        }
        if (c.supports_transparency && !a.supports_transparency) || c.num_samples > a.num_samples {
            chosen = i;
        }
        i = i + 1;
    }
    assert(configs@.subrange(0, configs@.len() as int) =~= configs@);
    chosen
}

} // verus!
