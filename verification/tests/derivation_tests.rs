use iced_core::Color as IcedColor;
use iced_style::theme::palette::{Extended, Palette};
use iced_style::Theme as IcedTheme;
use palette::Srgba;
use theme_colors::color::{Rgba, CHANNEL_ONE};
use theme_colors::editor::{Message, ThemeColors};
use theme_colors::theme::{BasePalette, ExtendedPalette, CellPair, Shades, Theme};

fn to_iced(c: Rgba) -> IcedColor {
    IcedColor::from(Srgba::<u16>::new(c.r, c.g, c.b, c.a).into_format())
}

fn from_iced(c: IcedColor) -> Rgba {
    let s: Srgba<u16> = Srgba::from(c).into_format();
    Rgba { r: s.red, g: s.green, b: s.blue, a: s.alpha }
}

fn from_iced_pair(p: iced_style::theme::palette::Pair) -> CellPair {
    CellPair { color: from_iced(p.color), text: from_iced(p.text) }
}

fn lib_base(p: Palette) -> BasePalette {
    BasePalette {
        background: from_iced(p.background),
        primary: from_iced(p.primary),
        text: from_iced(p.text),
        success: from_iced(p.success),
        danger: from_iced(p.danger),
    }
}

fn lib_extended(e: &Extended) -> ExtendedPalette {
    ExtendedPalette {
        background: Shades {
            base: from_iced_pair(e.background.base),
            weak: from_iced_pair(e.background.weak),
            strong: from_iced_pair(e.background.strong),
        },
        primary: Shades {
            base: from_iced_pair(e.primary.base),
            weak: from_iced_pair(e.primary.weak),
            strong: from_iced_pair(e.primary.strong),
        },
        secondary: Shades {
            base: from_iced_pair(e.secondary.base),
            weak: from_iced_pair(e.secondary.weak),
            strong: from_iced_pair(e.secondary.strong),
        },
        success: Shades {
            base: from_iced_pair(e.success.base),
            weak: from_iced_pair(e.success.weak),
            strong: from_iced_pair(e.success.strong),
        },
        danger: Shades {
            base: from_iced_pair(e.danger.base),
            weak: from_iced_pair(e.danger.weak),
            strong: from_iced_pair(e.danger.strong),
        },
    }
}

fn lib_theme(t: &IcedTheme) -> Theme {
    Theme { base: lib_base(t.palette()), extended: lib_extended(t.extended_palette()) }
}

#[test]
fn generate_matches_the_theming_library() {
    let base = BasePalette {
        background: Rgba { r: 8224, g: 8738, b: 9509, a: CHANNEL_ONE },
        primary: Rgba { r: 24158, g: 31868, b: 57825, a: CHANNEL_ONE },
        text: Rgba { r: 59110, g: 59110, b: 59110, a: CHANNEL_ONE },
        success: Rgba { r: 4626, g: 26214, b: 20303, a: CHANNEL_ONE },
        danger: Rgba { r: 49987, g: 16962, b: 16191, a: CHANNEL_ONE },
    };
    let start = Theme { base, extended: lib_extended(IcedTheme::Dark.extended_palette()) };
    let mut tc = ThemeColors::new(vec![start], start);
    tc.update(Message::GenerateFromBase);

    let generated = Extended::generate(Palette {
        background: to_iced(base.background),
        primary: to_iced(base.primary),
        text: to_iced(base.text),
        success: to_iced(base.success),
        danger: to_iced(base.danger),
    });
    assert_eq!(tc.extended, lib_extended(&generated));
    // The generator really replaced the starting extended palette.
    assert_ne!(tc.extended, start.extended);
}

#[test]
fn switching_to_a_catalog_theme_loads_both_palettes() {
    let dark = lib_theme(&IcedTheme::Dark);
    let light = lib_theme(&IcedTheme::Light);
    let mut tc = ThemeColors::new(vec![dark, light], dark);
    tc.update(Message::SelectWorkingTheme(light));
    assert_eq!(tc.palette, light.base);
    assert_eq!(tc.extended, light.extended);
    assert_eq!(tc.working_theme, light);
    // The editor's own rendering theme is independent of the working theme.
    assert_eq!(tc.app_theme, dark);
}
