//! Core state model of an interactive color-theme editor.
//!
//! A theme is a five-role base palette together with a fifteen-cell extended
//! palette (five categories, three strength tiers, each tier a surface color
//! paired with a readable text color). The editor keeps both palettes mutable,
//! addresses exactly one of the twenty editable cells through a selection,
//! applies clamped channel edits, resets single cells or everything back to
//! the working theme, re-derives the extended palette from the base through
//! the theming library's generator, and commits the edited palettes as a new
//! theme.
//!
//! Color channels are stored as 16-bit integers: the channel value `c` stands
//! for the normalized intensity `c / 65535`, so `0` is `0.0` and `65535` is
//! `1.0`. Callers that speak in normalized floating-point intensities convert
//! by rounding `v * 65535` into an `i64`; out-of-range raw values are clamped
//! by every mutation, exactly as the normalized model clamps into `[0.0, 1.0]`.

pub mod color;
pub mod theme;
pub mod derive;
pub mod editor;
pub mod entry;
pub mod laws;
