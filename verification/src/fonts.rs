//! Plain data types crossing the font-access boundary, and the palette
//! arithmetic that is this crate's own.
//!
//! Font parsing itself is an outside concern; what lives here is the data
//! the host exchanges about fonts — localized names, style attributes,
//! hinting and outline choices — and the color-palette resolution step:
//! packing color records and applying caller overrides in order.

use vstd::prelude::*;

verus! {

/// A name string with the language it is localized for.
#[derive(Debug)]
pub struct BridgeLocalizedName {
    pub string: String,
    pub language: String,
}

/// A caller-supplied replacement for one palette entry.
#[derive(Clone, Copy, Debug, PartialEq, Eq, Structural)]
pub struct PaletteOverride {
    pub index: u16,
    pub color_8888: u32,
}

/// Weight, slant and width attributes of a font style.
#[derive(Clone, Copy, Debug, PartialEq, Eq, Structural, Default)]
pub struct BridgeFontStyle {
    pub weight: i32,
    pub slant: i32,
    pub width: i32,
}

/// How autohinting is to be applied to glyph outlines.
#[derive(Clone, Copy, Debug, PartialEq, Eq, Structural)]
pub enum AutoHintingControl {
    ForceForGlyf,
    ForceForGlyfAndCff,
    ForceOff,
    Fallback,
}

/// Which outline source a font provides.
#[derive(Clone, Copy, Debug, PartialEq, Eq, Structural)]
pub enum OutlineFormat {
    NoOutlines,
    Glyf,
    Cff,
    Cff2,
}

/// A color record packed as a big-endian ARGB word.
pub open spec fn spec_pack_argb(alpha: u8, red: u8, green: u8, blue: u8) -> u32 {
    (16777216 * alpha + 65536 * red + 256 * green + blue) as u32
}

/// Packs a palette color record into the 8888 word order the host uses.
pub fn pack_argb(alpha: u8, red: u8, green: u8, blue: u8) -> (c: u32)
    ensures
        c == spec_pack_argb(alpha, red, green, blue),
{
    16777216 * (alpha as u32) + 65536 * (red as u32) + 256 * (green as u32) + (blue as u32)
}

/// One override applied to a palette: out-of-range indices change nothing.
pub open spec fn spec_apply_one(p: Seq<u32>, o: PaletteOverride) -> Seq<u32> {
    if o.index < p.len() {
        p.update(o.index as int, o.color_8888)
    } else {
        p
    }
}

/// The palette after applying the first `k` overrides in order; a later
/// override of the same entry wins.
pub open spec fn spec_apply_overrides(p: Seq<u32>, ov: Seq<PaletteOverride>) -> Seq<u32>
    decreases ov.len(),
{
    if ov.len() == 0 {
        p
    } else {
        spec_apply_one(spec_apply_overrides(p, ov.drop_last()), ov.last())
    }
}

/// Applies caller overrides to a resolved palette, in order.  Each
/// override whose index is in range replaces that entry; the rest are
/// ignored.  The palette's length never changes.
pub fn apply_palette_overrides(palette: &mut Vec<u32>, overrides: &[PaletteOverride])
    ensures
        final(palette)@ == spec_apply_overrides(old(palette)@, overrides@),
        final(palette)@.len() == old(palette)@.len(),
{
    let n = overrides.len();
    let mut i: usize = 0;
    while i < n
        invariant
            i <= n,
            n == overrides@.len(),
            palette@ == spec_apply_overrides(old(palette)@, overrides@.take(i as int)),
            palette@.len() == old(palette)@.len(),
        decreases n - i,
    {
        let o = overrides[i];
        let idx = o.index as usize;
        if idx < palette.len() {
            palette.set(idx, o.color_8888);
        }
        proof {
            assert(overrides@.take(i + 1).drop_last() =~= overrides@.take(i as int));
            assert(overrides@.take(i + 1).last() == overrides@[i as int]);
        }
        i += 1;
    }
    proof {
        assert(overrides@.take(n as int) =~= overrides@);
    }
}

} // verus!
