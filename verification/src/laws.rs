use vstd::prelude::*;
use crate::color::{
    channel_of, clamp_channel_spec, quantize8, widen8, with_channel, Channel,
};
use crate::editor::{
    adjust_spec, generate_spec, reset_all_spec, reset_selected_spec, selected_cell_spec,
    set_working_theme_spec, update_spec, Select, ThemeColors,
};
use crate::entry::{effective_text, rgba8_text_message_spec, u8_numeral_spec};
use crate::theme::{lemma_base_with_role, lemma_ext_with_cell, pair_part, Theme};

verus! {

/// The selection addresses base role `i`.
pub open spec fn base_addressed(sel: Select, i: int) -> bool {
    sel matches Select::Palette(k) && k == i
}

/// The selection addresses half `j` of extended cell `i`.
pub open spec fn part_addressed(sel: Select, i: int, j: int) -> bool {
    sel matches Select::Extended((k, l)) && k == i && l == j
}

/// A clamped channel edit, read back through the unchanged selection,
/// returns exactly the clamped raw value: the model of reading
/// `clamp(v, 0, 1)` after `adjustChannel(ch, v)`.
pub proof fn lemma_adjust_reads_clamped(s: ThemeColors, ch: Channel, raw: int)
    requires
        s.wf(),
    ensures
        adjust_spec(s, ch, raw).selected == s.selected,
        selected_cell_spec(adjust_spec(s, ch, raw)) == with_channel(
            selected_cell_spec(s),
            ch,
            clamp_channel_spec(raw),
        ),
        channel_of(selected_cell_spec(adjust_spec(s, ch, raw)), ch) == clamp_channel_spec(raw),
{
    let c = with_channel(selected_cell_spec(s), ch, clamp_channel_spec(raw));
    match s.selected {
        Select::Palette(i) => {
            lemma_base_with_role(s.palette, i as int, c);
        },
        Select::Extended((i, j)) => {
            lemma_ext_with_cell(
                s.extended,
                i as int,
                crate::theme::with_pair_part(s.extended@[i as int], j as int, c),
            );
        },
    }
}

/// Resetting everything twice yields the same state as resetting once.
pub proof fn lemma_reset_all_idempotent(s: ThemeColors)
    ensures
        reset_all_spec(reset_all_spec(s)) == reset_all_spec(s),
{
}

/// Changing the working theme and then resetting everything yields the
/// palettes of the theme change alone: the reset finds nothing to undo.
pub proof fn lemma_set_working_then_reset_all(s: ThemeColors, t: Theme)
    ensures
        reset_all_spec(set_working_theme_spec(s, t)) == set_working_theme_spec(s, t),
{
}

/// Resetting everything is exactly switching the working theme to itself:
/// the reset reloads both palettes from the working theme and touches
/// neither the rendering theme nor anything else.
pub proof fn lemma_reset_all_is_reworking(s: ThemeColors)
    ensures
        reset_all_spec(s) == set_working_theme_spec(s, s.working_theme),
{
}

/// Resetting the selected cell touches nothing else: every base role and
/// every extended half that the selection does not address keeps its value,
/// and so do the themes and the selection itself.
pub proof fn lemma_reset_selected_isolation(s: ThemeColors)
    requires
        s.wf(),
    ensures
        reset_selected_spec(s).selected == s.selected,
        reset_selected_spec(s).working_theme == s.working_theme,
        reset_selected_spec(s).app_theme == s.app_theme,
        reset_selected_spec(s).themes == s.themes,
        forall|i: int|
            0 <= i < 5 && !base_addressed(s.selected, i) ==> reset_selected_spec(s).palette@[i]
                == s.palette@[i],
        forall|i: int, j: int|
            0 <= i < 15 && 0 <= j < 2 && !part_addressed(s.selected, i, j) ==> #[trigger] pair_part(
                reset_selected_spec(s).extended@[i],
                j,
            ) == pair_part(s.extended@[i], j),
{
    let s2 = reset_selected_spec(s);
    match s.selected {
        Select::Palette(k) => {
            lemma_base_with_role(s.palette, k as int, s.working_theme.base@[k as int]);
        },
        Select::Extended((k, l)) => {
            let p = crate::theme::with_pair_part(
                s.extended@[k as int],
                l as int,
                pair_part(s.working_theme.extended@[k as int], l as int),
            );
            lemma_ext_with_cell(s.extended, k as int, p);
            assert forall|i: int, j: int|
                0 <= i < 15 && 0 <= j < 2 && !part_addressed(s.selected, i, j) implies #[trigger] pair_part(
                s2.extended@[i],
                j,
            ) == pair_part(s.extended@[i], j) by {
                if i == k as int {
                    assert(s2.extended@[i] == p);
                }
            }
        },
    }
}

/// Derivation is deterministic: equal base palettes derive equal extended
/// palettes, with no history dependence.
pub proof fn lemma_generate_deterministic(s1: ThemeColors, s2: ThemeColors)
    requires
        s1.palette == s2.palette,
    ensures
        generate_spec(s1).extended == generate_spec(s2).extended,
{
}

/// A channel written as 8-bit integer text re-encodes to the same 8-bit
/// value: the 8-bit round trip through text entry is lossless.
pub proof fn lemma_rgba8_text_round_trip(s: ThemeColors, ch: Channel, txt: Seq<char>, k: u8)
    requires
        s.wf(),
        u8_numeral_spec(effective_text(txt)) == Some(k),
    ensures
        quantize8(
            channel_of(
                selected_cell_spec(update_spec(s, rgba8_text_message_spec(ch, txt))),
                ch,
            ),
        ) == k,
{
    let v = widen8(k) as i64;
    assert(clamp_channel_spec(v as int) == widen8(k));
    lemma_adjust_reads_clamped(s, ch, v as int);
    crate::color::lemma_widen8_quantize8(k);
}

/// Malformed 8-bit channel text is a no-op: the command it denotes leaves
/// the whole state unchanged.
pub proof fn lemma_malformed_text_no_op(s: ThemeColors, ch: Channel, txt: Seq<char>)
    requires
        u8_numeral_spec(effective_text(txt)) is None,
    ensures
        update_spec(s, rgba8_text_message_spec(ch, txt)) == s,
{
}

} // verus!
