use theme_colors::color::{Channel, Rgba, Rgba8, CHANNEL_ONE};
use theme_colors::editor::{Message, Select, ThemeColors};
use theme_colors::entry::{adjust_from_rgba8_text, parse_u8_numeral};
use theme_colors::theme::{BasePalette, ExtendedPalette, CellPair, Shades, Theme};

fn gray(level: u16) -> Rgba {
    Rgba { r: level, g: level, b: level, a: CHANNEL_ONE }
}

fn pair(level: u16) -> CellPair {
    CellPair { color: gray(level), text: gray(CHANNEL_ONE - level) }
}

fn shades(level: u16) -> Shades {
    Shades { base: pair(level), weak: pair(level + 1), strong: pair(level + 2) }
}

fn sample_theme() -> Theme {
    Theme {
        base: BasePalette {
            background: gray(1000),
            primary: gray(2000),
            text: gray(3000),
            success: gray(4000),
            danger: gray(5000),
        },
        extended: ExtendedPalette {
            background: shades(100),
            primary: shades(200),
            secondary: shades(300),
            success: shades(400),
            danger: shades(500),
        },
    }
}

fn sample_editor() -> ThemeColors {
    let theme = sample_theme();
    ThemeColors::new(vec![theme], theme)
}

/// The raw channel value that a normalized floating-point intensity denotes.
fn raw_of(v: f64) -> i64 {
    (v * 65535.0).round() as i64
}

fn cells(tc: &ThemeColors) -> Vec<Rgba> {
    let mut all = Vec::new();
    for i in 0..5 {
        all.push(tc.palette.role(i));
    }
    for i in 0..15 {
        let p = tc.extended.cell(i);
        all.push(p.color);
        all.push(p.text);
    }
    all
}

#[test]
fn new_initializes_from_theme() {
    let tc = sample_editor();
    let theme = sample_theme();
    assert_eq!(tc.palette, theme.base);
    assert_eq!(tc.extended, theme.extended);
    assert_eq!(tc.working_theme, theme);
    assert_eq!(tc.app_theme, theme);
    assert_eq!(tc.selected, Select::Palette(0));
}

#[test]
fn adjust_clamps_above_one() {
    let mut tc = sample_editor();
    tc.update(Message::SelectColor(Select::Palette(1)));
    tc.update(Message::AdjustRed(raw_of(2.5)));
    assert_eq!(tc.palette.role(1).r, CHANNEL_ONE);
}

#[test]
fn reset_cell_restores_derived_value() {
    let mut tc = sample_editor();
    tc.update(Message::SelectColor(Select::Palette(1)));
    tc.update(Message::AdjustRed(raw_of(2.5)));
    tc.update(Message::ResetSelected);
    assert_eq!(tc.palette.role(1), sample_theme().base.primary);
}

#[test]
fn adjust_clamps_below_zero_and_spares_surface() {
    let mut tc = sample_editor();
    tc.update(Message::SelectColor(Select::Extended((3, 1))));
    tc.update(Message::AdjustAlpha(raw_of(-0.5)));
    assert_eq!(tc.extended.cell(3).text.a, 0);
    assert_eq!(tc.extended.cell(3).color, sample_theme().extended.primary.base.color);
}

#[test]
fn adjust_reads_back_clamped() {
    let mut tc = sample_editor();
    tc.update(Message::SelectColor(Select::Extended((7, 0))));
    let raw = raw_of(0.25);
    tc.update(Message::AdjustGreen(raw));
    assert_eq!(tc.selected_color().g as i64, raw);
}

#[test]
fn reset_all_is_idempotent() {
    let mut tc = sample_editor();
    tc.update(Message::SelectColor(Select::Extended((4, 0))));
    tc.update(Message::AdjustBlue(raw_of(0.75)));
    tc.update(Message::ResetAll);
    let once = cells(&tc);
    tc.update(Message::ResetAll);
    assert_eq!(cells(&tc), once);
}

#[test]
fn set_working_then_reset_all_round_trips() {
    let other = Theme { base: sample_theme().base, extended: ExtendedPalette {
        background: shades(900),
        primary: shades(910),
        secondary: shades(920),
        success: shades(930),
        danger: shades(940),
    } };
    let mut left = sample_editor();
    left.update(Message::SelectWorkingTheme(other));
    left.update(Message::ResetAll);
    let mut right = sample_editor();
    right.update(Message::SelectWorkingTheme(other));
    assert_eq!(left.palette, right.palette);
    assert_eq!(left.extended, right.extended);
}

#[test]
fn reset_cell_changes_only_the_addressed_cell() {
    let mut tc = sample_editor();
    tc.update(Message::SelectColor(Select::Extended((5, 1))));
    tc.update(Message::AdjustRed(raw_of(0.9)));
    let before = cells(&tc);
    tc.update(Message::ResetSelected);
    let after = cells(&tc);
    // Cell layout in `cells`: 5 base roles, then surface/text per extended cell.
    let changed = 5 + 5 * 2 + 1;
    for i in 0..before.len() {
        if i == changed {
            assert_eq!(after[i], sample_theme().extended.primary.strong.text);
        } else {
            assert_eq!(after[i], before[i]);
        }
    }
}

#[test]
fn derivation_is_deterministic() {
    let mut tc = sample_editor();
    tc.update(Message::GenerateFromBase);
    let first = tc.extended;
    tc.update(Message::SelectColor(Select::Extended((0, 0))));
    tc.update(Message::AdjustRed(raw_of(0.123)));
    tc.update(Message::GenerateFromBase);
    assert_eq!(tc.extended, first);
}

#[test]
fn eight_bit_text_round_trips() {
    let mut tc = sample_editor();
    tc.update(Message::SelectColor(Select::Palette(2)));
    let m = adjust_from_rgba8_text(Channel::Red, "128");
    tc.update(m);
    assert_eq!(tc.selected_rgba8().r, 128);
}

#[test]
fn malformed_text_is_a_no_op() {
    let mut tc = sample_editor();
    tc.update(Message::SelectColor(Select::Palette(2)));
    let before = cells(&tc);
    let m = adjust_from_rgba8_text(Channel::Green, "pear");
    assert_eq!(m, Message::Ignore);
    tc.update(m);
    assert_eq!(cells(&tc), before);
}

#[test]
fn empty_text_counts_as_zero() {
    let m = adjust_from_rgba8_text(Channel::Blue, "");
    assert_eq!(m, Message::AdjustBlue(0));
}

#[test]
fn eight_bit_text_parsing_edges() {
    assert_eq!(parse_u8_numeral("0"), Some(0));
    assert_eq!(parse_u8_numeral("255"), Some(255));
    assert_eq!(parse_u8_numeral("+12"), Some(12));
    assert_eq!(parse_u8_numeral("0003"), Some(3));
    assert_eq!(parse_u8_numeral("256"), None);
    assert_eq!(parse_u8_numeral("12x"), None);
    assert_eq!(parse_u8_numeral("999999999999"), None);
    assert_eq!(parse_u8_numeral("+"), None);
    assert_eq!(parse_u8_numeral(""), None);
    assert_eq!(parse_u8_numeral("-1"), None);
    assert_eq!(parse_u8_numeral("1.5"), None);
}

#[test]
fn eight_bit_round_trip_is_exact_for_every_value() {
    for k in 0..=255u8 {
        let c = Rgba::from_rgba8(Rgba8 { r: k, g: k, b: k, a: k });
        let back = c.to_rgba8();
        assert_eq!(back, Rgba8 { r: k, g: k, b: k, a: k });
    }
}

#[test]
fn try_theme_commits_palettes_verbatim() {
    let mut tc = sample_editor();
    tc.update(Message::SelectColor(Select::Extended((8, 0))));
    tc.update(Message::AdjustRed(raw_of(0.5)));
    let edited_base = tc.palette;
    let edited_extended = tc.extended;
    tc.update(Message::TryTheme);
    let committed = Theme { base: edited_base, extended: edited_extended };
    assert_eq!(tc.working_theme, committed);
    assert_eq!(tc.app_theme, committed);
    assert_eq!(tc.themes[0], committed);
    // The committed extended edits survive a later reset verbatim.
    tc.update(Message::AdjustRed(raw_of(0.9)));
    tc.update(Message::ResetAll);
    assert_eq!(tc.palette, edited_base);
    assert_eq!(tc.extended, edited_extended);
}

#[test]
fn select_app_theme_leaves_editable_state() {
    let other = sample_theme();
    let mut tc = sample_editor();
    tc.update(Message::SelectColor(Select::Palette(4)));
    tc.update(Message::AdjustAlpha(raw_of(0.25)));
    let before = cells(&tc);
    tc.update(Message::SelectAppTheme(other));
    assert_eq!(cells(&tc), before);
    assert_eq!(tc.theme(), other);
}
