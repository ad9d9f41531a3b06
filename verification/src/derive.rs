use vstd::prelude::*;
use crate::color::Rgba;
use crate::theme::{BasePalette, ExtendedPalette, CellPair, Shades};
use iced_style::theme::palette::{Extended, Palette};
use palette::Srgba;

verus! {

/// The theming library's floating-point color, carried opaquely between
/// the trusted conversions below.
#[verifier::external_type_specification]
#[verifier::external_body]
pub struct ExIcedColor(iced_core::Color);

/// The theming library's surface/text color pair, carried opaquely.
#[verifier::external_type_specification]
#[verifier::external_body]
pub struct ExIcedPair(iced_style::theme::palette::Pair);

/// The fifteen extended-palette cells that the theming library's generator
/// derives from a five-role base palette, in flattened index order. The
/// generator is a pure function of the five colors alone, so the derivation
/// is deterministic; its internals stay with the theming library.
pub uninterp spec fn derived_pairs_of(base: Seq<Rgba>) -> Seq<CellPair>;

/// Relies on iced_core::Color::from over palette's Srgba: a 16-bit channel
/// `c` becomes the floating-point intensity `c / 65535`, exactly. Only the
/// derivation wrapper below calls this, to hand the base colors to the
/// generator; it promises nothing on its own.
#[verifier::external_body]
fn to_iced(v: &Rgba) -> iced_core::Color {
    iced_core::Color::from(Srgba::<u16>::new(v.r, v.g, v.b, v.a).into_format())
}

/// Relies on palette's Srgba conversions: each floating-point intensity `v`
/// of the pair's two colors returns as `round(v * 65535)`, clamped into
/// `0..=65535`. Only the derivation wrapper below calls this, to bring each
/// generated pair back into 16-bit channels; it promises nothing on its own.
#[verifier::external_body]
fn from_pair(x: &iced_style::theme::palette::Pair) -> CellPair {
    let c: Srgba<u16> = Srgba::from(x.color).into_format();
    let t: Srgba<u16> = Srgba::from(x.text).into_format();
    CellPair {
        color: Rgba { r: c.red, g: c.green, b: c.blue, a: c.alpha },
        text: Rgba { r: t.red, g: t.green, b: t.blue, a: t.alpha },
    }
}

/// Relies on iced_style::theme::palette::Extended::generate: a pure
/// function that expands a five-color base palette into the fifteen
/// extended cells (five categories of base, weak and strong pairs,
/// flattened in that order). The channels cross the boundary through the
/// exact conversions above.
#[verifier::external_body]
fn generate_pairs(c0: &Rgba, c1: &Rgba, c2: &Rgba, c3: &Rgba, c4: &Rgba) -> (r: Vec<CellPair>)
    ensures
        r@.len() == 15,
        r@ == derived_pairs_of(seq![*c0, *c1, *c2, *c3, *c4]),
{
    let p = Palette {
        background: to_iced(c0),
        primary: to_iced(c1),
        text: to_iced(c2),
        success: to_iced(c3),
        danger: to_iced(c4),
    };
    let Extended { background: w, primary: q, secondary: n, success: u, danger: d, is_dark: _ } =
        Extended::generate(p);
    let g = [
        w.base, w.weak, w.strong, q.base, q.weak, q.strong, n.base, n.weak, n.strong,
        u.base, u.weak, u.strong, d.base, d.weak, d.strong,
    ];
    g.iter().map(from_pair).collect()
}

/// The extended palette whose flattened cells are `q`.
pub open spec fn ext_from_pairs(q: Seq<CellPair>) -> ExtendedPalette {
    ExtendedPalette {
        background: Shades { base: q[0], weak: q[1], strong: q[2] },
        primary: Shades { base: q[3], weak: q[4], strong: q[5] },
        secondary: Shades { base: q[6], weak: q[7], strong: q[8] },
        success: Shades { base: q[9], weak: q[10], strong: q[11] },
        danger: Shades { base: q[12], weak: q[13], strong: q[14] },
    }
}

/// Derives the fifteen extended cells from a base palette through the
/// theming library's generator.
pub fn derive_extended(base: &BasePalette) -> (e: ExtendedPalette)
    ensures
        e == ext_from_pairs(derived_pairs_of(base@)),
        e@ == derived_pairs_of(base@),
{
    let r = generate_pairs(&base.background, &base.primary, &base.text, &base.success, &base.danger);
    proof {
        assert(seq![base.background, base.primary, base.text, base.success, base.danger]
            =~= base@);
    }
    let e = ExtendedPalette {
        background: Shades { base: r[0], weak: r[1], strong: r[2] },
        primary: Shades { base: r[3], weak: r[4], strong: r[5] },
        secondary: Shades { base: r[6], weak: r[7], strong: r[8] },
        success: Shades { base: r[9], weak: r[10], strong: r[11] },
        danger: Shades { base: r[12], weak: r[13], strong: r[14] },
    };
    proof {
        assert(e@ =~= derived_pairs_of(base@));
    }
    e
}

} // verus!
