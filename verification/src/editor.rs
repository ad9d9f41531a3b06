use vstd::prelude::*;
use crate::color::{clamp_channel, clamp_channel_spec, with_channel, Channel, Rgba, Rgba8};
use crate::derive::{derive_extended, derived_pairs_of, ext_from_pairs};
use crate::theme::{
    base_with_role, ext_with_cell, pair_part, with_pair_part, BasePalette, ExtendedPalette, Theme,
};

verus! {

/// The active selection: the single address of one of the twenty editable
/// color cells. `Palette(i)` addresses base role `i` (five roles);
/// `Extended((i, j))` addresses the surface (`j == 0`) or text (`j == 1`)
/// color of extended cell `i` (fifteen cells).
#[derive(Clone, Copy, Debug, PartialEq, Eq)]
pub enum Select {
    Palette(usize),
    Extended((usize, usize)),
}

impl Select {
    /// The selection addresses an existing cell.
    pub open spec fn wf(self) -> bool {
        match self {
            Select::Palette(i) => i < 5,
            Select::Extended((i, j)) => i < 15 && j < 2,
        }
    }
}

/// A command of the editor, one discrete user intent. Channel adjustments
/// carry a raw channel value in 16-bit channel units (the normalized
/// intensity `v` rounded to `v * 65535`); the editor clamps it.
#[derive(Clone, Copy, Debug, PartialEq, Eq)]
pub enum Message {
    /// The distinguished no-op outcome, produced for malformed channel input.
    Ignore,
    ResetSelected,
    ResetAll,
    GenerateFromBase,
    SelectWorkingTheme(Theme),
    SelectAppTheme(Theme),
    SelectColor(Select),
    AdjustRed(i64),
    AdjustGreen(i64),
    AdjustBlue(i64),
    AdjustAlpha(i64),
    TryTheme,
}

impl Message {
    /// Every selection the command carries addresses an existing cell.
    pub open spec fn wf(self) -> bool {
        match self {
            Message::SelectColor(s) => s.wf(),
            _ => true,
        }
    }
}

/// The editor's whole state: the theme catalog, the theme rendering the
/// editor itself, the working theme every reset goes back to, the two
/// editable palettes, and the active selection.
pub struct ThemeColors {
    /// The selectable themes; slot 0 is the committed custom theme.
    pub themes: Vec<Theme>,
    /// The theme rendering the editor's own chrome.
    pub app_theme: Theme,
    /// The reset baseline; changing it overwrites both editable palettes.
    pub working_theme: Theme,
    /// The editable base palette.
    pub palette: BasePalette,
    /// The editable extended palette.
    pub extended: ExtendedPalette,
    /// The single active cell address.
    pub selected: Select,
}

/// The color cell addressed by the active selection.
pub open spec fn selected_cell_spec(s: ThemeColors) -> Rgba {
    match s.selected {
        Select::Palette(i) => s.palette@[i as int],
        Select::Extended((i, j)) => pair_part(s.extended@[i as int], j as int),
    }
}

/// `s` with the addressed color cell replaced by `c`. Only the addressed
/// half of an extended pair is written; everything else is untouched.
pub open spec fn write_selected_spec(s: ThemeColors, c: Rgba) -> ThemeColors {
    match s.selected {
        Select::Palette(i) => ThemeColors { palette: base_with_role(s.palette, i as int, c), ..s },
        Select::Extended((i, j)) => ThemeColors {
            extended: ext_with_cell(
                s.extended,
                i as int,
                with_pair_part(s.extended@[i as int], j as int, c),
            ),
            ..s
        },
    }
}

/// A clamped channel edit: the raw value clamped into range and written to
/// the one channel of the one addressed color.
pub open spec fn adjust_spec(s: ThemeColors, ch: Channel, raw: int) -> ThemeColors {
    write_selected_spec(
        s,
        with_channel(selected_cell_spec(s), ch, clamp_channel_spec(raw)),
    )
}

/// The addressed cell restored to the working theme's value: a whole base
/// role, or one half of an extended pair.
pub open spec fn reset_selected_spec(s: ThemeColors) -> ThemeColors {
    write_selected_spec(
        s,
        match s.selected {
            Select::Palette(i) => s.working_theme.base@[i as int],
            Select::Extended((i, j)) => pair_part(s.working_theme.extended@[i as int], j as int),
        },
    )
}

/// Both editable palettes restored to the working theme's values.
pub open spec fn reset_all_spec(s: ThemeColors) -> ThemeColors {
    ThemeColors { palette: s.working_theme.base, extended: s.working_theme.extended, ..s }
}

/// The working theme replaced: both editable palettes are overwritten
/// atomically with the theme's own palettes.
pub open spec fn set_working_theme_spec(s: ThemeColors, t: Theme) -> ThemeColors {
    ThemeColors { palette: t.base, extended: t.extended, working_theme: t, ..s }
}

/// Only the rendering theme replaced; the editable state is untouched.
pub open spec fn set_app_theme_spec(s: ThemeColors, t: Theme) -> ThemeColors {
    ThemeColors { app_theme: t, ..s }
}

/// The selection replaced; palettes and themes are untouched.
pub open spec fn select_spec(s: ThemeColors, sel: Select) -> ThemeColors {
    ThemeColors { selected: sel, ..s }
}

/// The extended palette recomputed from the current, possibly edited base
/// palette; the base palette and the working theme are unaffected.
pub open spec fn generate_spec(s: ThemeColors) -> ThemeColors {
    ThemeColors { extended: ext_from_pairs(derived_pairs_of(s.palette@)), ..s }
}

/// The theme that a commit of the current palettes builds.
pub open spec fn committed_theme_spec(s: ThemeColors) -> Theme {
    Theme { base: s.palette, extended: s.extended }
}

impl ThemeColors {
    /// The selection addresses an existing cell and the catalog keeps the
    /// slot that commits overwrite.
    pub open spec fn wf(self) -> bool {
        &&& self.selected.wf()
        &&& self.themes@.len() >= 1
    }

    /// A fresh editor over the given catalog: both palettes are initialized
    /// from the initial theme, which becomes the working theme and the
    /// rendering theme, and base role 0 is selected.
    pub fn new(themes: Vec<Theme>, initial: Theme) -> (tc: ThemeColors)
        requires
            themes@.len() >= 1,
        ensures
            tc.themes == themes,
            tc.app_theme == initial,
            tc.working_theme == initial,
            tc.palette == initial.base,
            tc.extended == initial.extended,
            tc.selected == Select::Palette(0usize),
            tc.wf(),
    {
        ThemeColors {
            themes,
            app_theme: initial,
            working_theme: initial,
            palette: initial.base,
            extended: initial.extended,
            selected: Select::Palette(0),
        }
    }

    /// The theme rendering the editor's own chrome.
    pub fn theme(&self) -> (t: Theme)
        ensures
            t == self.app_theme,
    {
        self.app_theme
    }

    /// Reads the color cell addressed by the active selection.
    pub fn selected_color(&self) -> (c: Rgba)
        requires
            self.wf(),
        ensures
            c == selected_cell_spec(*self),
    {
        match self.selected {
            Select::Palette(i) => self.palette.role(i),
            Select::Extended((i, j)) => self.extended.cell(i).part(j),
        }
    }

    /// The 8-bit view of the addressed color, as display and entry show it.
    pub fn selected_rgba8(&self) -> (k: Rgba8)
        requires
            self.wf(),
        ensures
            k == selected_cell_spec(*self).to_rgba8_spec(),
    {
        self.selected_color().to_rgba8()
    }

    /// Writes `c` over the addressed color cell.
    fn write_selected(&mut self, c: Rgba)
        requires
            old(self).wf(),
        ensures
            *final(self) == write_selected_spec(*old(self), c),
            final(self).wf(),
    {
        match self.selected {
            Select::Palette(i) => self.palette.set_role(i, c),
            Select::Extended((i, j)) => {
                let mut p = self.extended.cell(i);
                p.set_part(j, c);
                self.extended.set_cell(i, p);
            },
        }
    }

    /// Clamps a raw channel value and writes it to one channel of the
    /// addressed color.
    pub fn adjust_selected_channel(&mut self, ch: Channel, new_value: i64)
        requires
            old(self).wf(),
        ensures
            *final(self) == adjust_spec(*old(self), ch, new_value as int),
            final(self).wf(),
    {
        let clamped = clamp_channel(new_value);
        let mut c = self.selected_color();
        c.set_channel(ch, clamped);
        self.write_selected(c);
    }

    /// Clamps a raw red value and writes it to the addressed color.
    pub fn adjust_selected_red_color(&mut self, new_value: i64)
        requires
            old(self).wf(),
        ensures
            *final(self) == adjust_spec(*old(self), Channel::Red, new_value as int),
            final(self).wf(),
    {
        self.adjust_selected_channel(Channel::Red, new_value);
    }

    /// Clamps a raw green value and writes it to the addressed color.
    pub fn adjust_selected_green_color(&mut self, new_value: i64)
        requires
            old(self).wf(),
        ensures
            *final(self) == adjust_spec(*old(self), Channel::Green, new_value as int),
            final(self).wf(),
    {
        self.adjust_selected_channel(Channel::Green, new_value);
    }

    /// Clamps a raw blue value and writes it to the addressed color.
    pub fn adjust_selected_blue_color(&mut self, new_value: i64)
        requires
            old(self).wf(),
        ensures
            *final(self) == adjust_spec(*old(self), Channel::Blue, new_value as int),
            final(self).wf(),
    {
        self.adjust_selected_channel(Channel::Blue, new_value);
    }

    /// Clamps a raw alpha value and writes it to the addressed color.
    pub fn adjust_selected_alpha_color(&mut self, new_value: i64)
        requires
            old(self).wf(),
        ensures
            *final(self) == adjust_spec(*old(self), Channel::Alpha, new_value as int),
            final(self).wf(),
    {
        self.adjust_selected_channel(Channel::Alpha, new_value);
    }

    /// Restores the addressed cell to the working theme's value, leaving
    /// all other cells untouched.
    pub fn reset_selected(&mut self)
        requires
            old(self).wf(),
        ensures
            *final(self) == reset_selected_spec(*old(self)),
            final(self).wf(),
    {
        let baseline = match self.selected {
            Select::Palette(i) => self.working_theme.base.role(i),
            Select::Extended((i, j)) => self.working_theme.extended.cell(i).part(j),
        };
        self.write_selected(baseline);
    }

    /// Restores every cell to the working theme's values.
    pub fn reset_all(&mut self)
        requires
            old(self).wf(),
        ensures
            *final(self) == reset_all_spec(*old(self)),
            final(self).wf(),
    {
        self.palette = self.working_theme.base;
        self.extended = self.working_theme.extended;
    }

    /// Recomputes the whole extended palette from the current, possibly
    /// edited base palette through the theming library's generator.
    pub fn generate_extended_from_palette(&mut self)
        requires
            old(self).wf(),
        ensures
            *final(self) == generate_spec(*old(self)),
            final(self).wf(),
    {
        self.extended = derive_extended(&self.palette);
    }

    /// Replaces the working theme and atomically overwrites both editable
    /// palettes with the theme's own palettes.
    pub fn set_working_theme(&mut self, t: Theme)
        requires
            old(self).wf(),
        ensures
            *final(self) == set_working_theme_spec(*old(self), t),
            final(self).wf(),
    {
        self.palette = t.base;
        self.extended = t.extended;
        self.working_theme = t;
    }

    /// Replaces only the theme rendering the editor itself.
    pub fn set_app_theme(&mut self, t: Theme)
        requires
            old(self).wf(),
        ensures
            *final(self) == set_app_theme_spec(*old(self), t),
            final(self).wf(),
    {
        self.app_theme = t;
    }

    /// Replaces the active selection.
    pub fn select(&mut self, sel: Select)
        requires
            old(self).wf(),
            sel.wf(),
        ensures
            *final(self) == select_spec(*old(self), sel),
            final(self).wf(),
    {
        self.selected = sel;
    }

    /// Commits the current palettes as a new theme: it fills the custom
    /// catalog slot and becomes both the working theme and the rendering
    /// theme, cell for cell, with no re-derivation.
    pub fn try_theme(&mut self)
        requires
            old(self).wf(),
        ensures
            final(self).themes@ == old(self).themes@.update(0, committed_theme_spec(*old(self))),
            final(self).working_theme == committed_theme_spec(*old(self)),
            final(self).app_theme == committed_theme_spec(*old(self)),
            final(self).palette == old(self).palette,
            final(self).extended == old(self).extended,
            final(self).selected == old(self).selected,
            final(self).wf(),
    {
        let committed = Theme { base: self.palette, extended: self.extended };
        self.themes[0] = committed;
        self.working_theme = committed;
        self.app_theme = committed;
    }

    /// Applies one command. Every command is a single atomic transition:
    /// it commits its full effect or, for `Ignore`, has none.
    pub fn update(&mut self, message: Message)
        requires
            old(self).wf(),
            message.wf(),
        ensures
            *final(self) == (ThemeColors { themes: final(self).themes, ..update_spec(*old(self), message) }),
            final(self).themes@ == (if message is TryTheme {
                old(self).themes@.update(0, committed_theme_spec(*old(self)))
            } else {
                old(self).themes@
            }),
            final(self).wf(),
    {
        match message {
            Message::Ignore => {},
            Message::ResetSelected => self.reset_selected(),
            Message::ResetAll => self.reset_all(),
            Message::GenerateFromBase => self.generate_extended_from_palette(),
            Message::SelectWorkingTheme(t) => self.set_working_theme(t),
            Message::SelectAppTheme(t) => self.set_app_theme(t),
            Message::SelectColor(sel) => self.select(sel),
            Message::AdjustRed(v) => self.adjust_selected_red_color(v),
            Message::AdjustGreen(v) => self.adjust_selected_green_color(v),
            Message::AdjustBlue(v) => self.adjust_selected_blue_color(v),
            Message::AdjustAlpha(v) => self.adjust_selected_alpha_color(v),
            Message::TryTheme => self.try_theme(),
        }
    }
}

/// The state after one command, in every field but the catalog: a commit
/// also overwrites catalog slot 0, which `update` states separately over
/// the catalog's contents.
pub open spec fn update_spec(s: ThemeColors, message: Message) -> ThemeColors {
    match message {
        Message::Ignore => s,
        Message::ResetSelected => reset_selected_spec(s),
        Message::ResetAll => reset_all_spec(s),
        Message::GenerateFromBase => generate_spec(s),
        Message::SelectWorkingTheme(t) => set_working_theme_spec(s, t),
        Message::SelectAppTheme(t) => set_app_theme_spec(s, t),
        Message::SelectColor(sel) => select_spec(s, sel),
        Message::AdjustRed(v) => adjust_spec(s, Channel::Red, v as int),
        Message::AdjustGreen(v) => adjust_spec(s, Channel::Green, v as int),
        Message::AdjustBlue(v) => adjust_spec(s, Channel::Blue, v as int),
        Message::AdjustAlpha(v) => adjust_spec(s, Channel::Alpha, v as int),
        Message::TryTheme => committed_state_spec(s),
    }
}

/// The state after a commit.
pub open spec fn committed_state_spec(s: ThemeColors) -> ThemeColors {
    ThemeColors {
        working_theme: committed_theme_spec(s),
        app_theme: committed_theme_spec(s),
        ..s
    }
}

} // verus!

