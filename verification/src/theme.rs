use vstd::prelude::*;
use crate::color::Rgba;

verus! {

/// One extended-palette cell: a surface color and the text color paired
/// with it. Channel edits address exactly one half of the pair.
#[derive(Clone, Copy, Debug, PartialEq, Eq, Structural)]
pub struct CellPair {
    pub color: Rgba,
    pub text: Rgba,
}

/// The half of a `CellPair` selected by `part`: `0` is the surface color,
/// `1` the paired text color.
pub open spec fn pair_part(p: CellPair, part: int) -> Rgba {
    if part == 0 {
        p.color
    } else {
        p.text
    }
}

/// `p` with the half selected by `part` replaced by `c`.
pub open spec fn with_pair_part(p: CellPair, part: int, c: Rgba) -> CellPair {
    if part == 0 {
        CellPair { color: c, ..p }
    } else {
        CellPair { text: c, ..p }
    }
}

impl CellPair {
    /// Reads the surface (`part == 0`) or text (`part == 1`) half.
    pub fn part(&self, part: usize) -> (c: Rgba)
        requires
            part < 2,
        ensures
            c == pair_part(*self, part as int),
    {
        if part == 0 {
            self.color
        } else {
            self.text
        }
    }

    /// Replaces the surface (`part == 0`) or text (`part == 1`) half.
    pub fn set_part(&mut self, part: usize, c: Rgba)
        requires
            part < 2,
        ensures
            *final(self) == with_pair_part(*old(self), part as int, c),
    {
        if part == 0 {
            self.color = c;
        } else {
            self.text = c;
        }
    }
}

/// The five-role seed palette. The role order is fixed and gives the
/// flattened indexing: background 0, primary 1, text 2, success 3, danger 4.
#[derive(Clone, Copy, Debug, PartialEq, Eq, Structural)]
pub struct BasePalette {
    pub background: Rgba,
    pub primary: Rgba,
    pub text: Rgba,
    pub success: Rgba,
    pub danger: Rgba,
}

impl View for BasePalette {
    type V = Seq<Rgba>;

    /// The five roles in index order.
    open spec fn view(&self) -> Seq<Rgba> {
        seq![self.background, self.primary, self.text, self.success, self.danger]
    }
}

/// `p` with the role at index `i` replaced by `c`.
pub open spec fn base_with_role(p: BasePalette, i: int, c: Rgba) -> BasePalette {
    if i == 0 {
        BasePalette { background: c, ..p }
    } else if i == 1 {
        BasePalette { primary: c, ..p }
    } else if i == 2 {
        BasePalette { text: c, ..p }
    } else if i == 3 {
        BasePalette { success: c, ..p }
    } else {
        BasePalette { danger: c, ..p }
    }
}

/// Replacing a role rewrites exactly one position of the flattened view.
pub proof fn lemma_base_with_role(p: BasePalette, i: int, c: Rgba)
    requires
        0 <= i < 5,
    ensures
        base_with_role(p, i, c)@ =~= p@.update(i, c),
{
}

impl BasePalette {
    /// Reads the role at index `i`.
    pub fn role(&self, i: usize) -> (c: Rgba)
        requires
            i < 5,
        ensures
            c == self@[i as int],
    {
        if i == 0 {
            self.background
        } else if i == 1 {
            self.primary
        } else if i == 2 {
            self.text
        } else if i == 3 {
            self.success
        } else {
            self.danger
        }
    }

    /// Replaces the role at index `i`, leaving the other four untouched.
    pub fn set_role(&mut self, i: usize, c: Rgba)
        requires
            i < 5,
        ensures
            *final(self) == base_with_role(*old(self), i as int, c),
            final(self)@ == old(self)@.update(i as int, c),
    {
        proof {
            lemma_base_with_role(*self, i as int, c);
        }
        if i == 0 {
            self.background = c;
        } else if i == 1 {
            self.primary = c;
        } else if i == 2 {
            self.text = c;
        } else if i == 3 {
            self.success = c;
        } else {
            self.danger = c;
        }
    }
}

/// The three strength tiers of one extended-palette category.
#[derive(Clone, Copy, Debug, PartialEq, Eq, Structural)]
pub struct Shades {
    pub base: CellPair,
    pub weak: CellPair,
    pub strong: CellPair,
}

/// The fifteen-cell extended palette: five categories of three strength
/// tiers each. The canonical flattened index of category `c` and tier `t`
/// is `c * 3 + t`, with the categories ordered background 0, primary 1,
/// secondary 2, success 3, danger 4 and the tiers base 0, weak 1, strong 2.
#[derive(Clone, Copy, Debug, PartialEq, Eq, Structural)]
pub struct ExtendedPalette {
    pub background: Shades,
    pub primary: Shades,
    pub secondary: Shades,
    pub success: Shades,
    pub danger: Shades,
}

impl View for ExtendedPalette {
    type V = Seq<CellPair>;

    /// The fifteen cells in flattened index order.
    open spec fn view(&self) -> Seq<CellPair> {
        seq![
            self.background.base,
            self.background.weak,
            self.background.strong,
            self.primary.base,
            self.primary.weak,
            self.primary.strong,
            self.secondary.base,
            self.secondary.weak,
            self.secondary.strong,
            self.success.base,
            self.success.weak,
            self.success.strong,
            self.danger.base,
            self.danger.weak,
            self.danger.strong,
        ]
    }
}

/// `e` with the cell at flattened index `i` replaced by `p`.
pub open spec fn ext_with_cell(e: ExtendedPalette, i: int, p: CellPair) -> ExtendedPalette {
    if i < 3 {
        ExtendedPalette { background: shades_with(e.background, i, p), ..e }
    } else if i < 6 {
        ExtendedPalette { primary: shades_with(e.primary, i - 3, p), ..e }
    } else if i < 9 {
        ExtendedPalette { secondary: shades_with(e.secondary, i - 6, p), ..e }
    } else if i < 12 {
        ExtendedPalette { success: shades_with(e.success, i - 9, p), ..e }
    } else {
        ExtendedPalette { danger: shades_with(e.danger, i - 12, p), ..e }
    }
}

/// `s` with the tier at index `t` replaced by `p`.
pub open spec fn shades_with(s: Shades, t: int, p: CellPair) -> Shades {
    if t == 0 {
        Shades { base: p, ..s }
    } else if t == 1 {
        Shades { weak: p, ..s }
    } else {
        Shades { strong: p, ..s }
    }
}

/// Replacing a cell rewrites exactly one position of the flattened view.
pub proof fn lemma_ext_with_cell(e: ExtendedPalette, i: int, p: CellPair)
    requires
        0 <= i < 15,
    ensures
        ext_with_cell(e, i, p)@ =~= e@.update(i, p),
{
}

impl Shades {
    /// Reads the tier at index `t`.
    pub fn tier(&self, t: usize) -> (p: CellPair)
        requires
            t < 3,
        ensures
            p == (if t == 0 {
                self.base
            } else if t == 1 {
                self.weak
            } else {
                self.strong
            }),
    {
        if t == 0 {
            self.base
        } else if t == 1 {
            self.weak
        } else {
            self.strong
        }
    }

    /// Replaces the tier at index `t`.
    pub fn set_tier(&mut self, t: usize, p: CellPair)
        requires
            t < 3,
        ensures
            *final(self) == shades_with(*old(self), t as int, p),
    {
        if t == 0 {
            self.base = p;
        } else if t == 1 {
            self.weak = p;
        } else {
            self.strong = p;
        }
    }
}

impl ExtendedPalette {
    /// Reads the cell at flattened index `i`.
    pub fn cell(&self, i: usize) -> (p: CellPair)
        requires
            i < 15,
        ensures
            p == self@[i as int],
    {
        if i < 3 {
            self.background.tier(i)
        } else if i < 6 {
            self.primary.tier(i - 3)
        } else if i < 9 {
            self.secondary.tier(i - 6)
        } else if i < 12 {
            self.success.tier(i - 9)
        } else {
            self.danger.tier(i - 12)
        }
    }

    /// Replaces the cell at flattened index `i`, leaving the other
    /// fourteen untouched.
    pub fn set_cell(&mut self, i: usize, p: CellPair)
        requires
            i < 15,
        ensures
            *final(self) == ext_with_cell(*old(self), i as int, p),
            final(self)@ == old(self)@.update(i as int, p),
    {
        proof {
            lemma_ext_with_cell(*self, i as int, p);
        }
        if i < 3 {
            self.background.set_tier(i, p);
        } else if i < 6 {
            self.primary.set_tier(i - 3, p);
        } else if i < 9 {
            self.secondary.set_tier(i - 6, p);
        } else if i < 12 {
            self.success.set_tier(i - 9, p);
        } else {
            self.danger.set_tier(i - 12, p);
        }
    }
}

/// A theme: the palettes a working or rendering theme supplies. A theme is
/// a pure value; switching to it overwrites both editable palettes, and
/// committing the editor's palettes builds a new one.
#[derive(Clone, Copy, Debug, PartialEq, Eq, Structural)]
pub struct Theme {
    pub base: BasePalette,
    pub extended: ExtendedPalette,
}

} // verus!
