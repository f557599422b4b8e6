//! Laws of the viewer, stated over the screen model and proved.
use vstd::prelude::*;

use iced::Color;

use crate::palette::THEME_COUNT;
use crate::swatch::{categories, shades_of, Category, RowModel, Swatch};
use crate::viewer::{next_state, screen_of, Message, PaletteViewer, ScreenModel};

verus! {

/// What each swatch shows, row by row: its label, fill and text colour.
pub open spec fn swatch_colors(m: ScreenModel) -> Seq<Seq<(&'static str, Color, Color)>> {
    m.rows.map_values(
        |r: RowModel| r.swatches.map_values(|s: Swatch| (s.label, s.fill, s.text)),
    )
}

/// Two rows are laid out alike: same category, spacing, and swatches of the
/// same shades, labels and sizes, in the same order.
pub open spec fn same_row_layout(a: RowModel, b: RowModel) -> bool {
    &&& a.category == b.category
    &&& a.spacing == b.spacing
    &&& a.swatches.len() == b.swatches.len()
    &&& forall|j: int|
        0 <= j < a.swatches.len() ==> {
            &&& (#[trigger] a.swatches[j]).shade == b.swatches[j].shade
            &&& a.swatches[j].label == b.swatches[j].label
            &&& a.swatches[j].width == b.swatches[j].width
            &&& a.swatches[j].height == b.swatches[j].height
            &&& a.swatches[j].label_size == b.swatches[j].label_size
        }
}

/// Two screens are laid out alike: they differ at most in the selected theme
/// and in the colours of their swatches.
pub open spec fn same_layout(a: ScreenModel, b: ScreenModel) -> bool {
    &&& a.placeholder == b.placeholder
    &&& a.picker_gap == b.picker_gap
    &&& a.title == b.title
    &&& a.title_size == b.title_size
    &&& a.column_spacing == b.column_spacing
    &&& a.padding == b.padding
    &&& a.rows.len() == b.rows.len()
    &&& forall|i: int| 0 <= i < a.rows.len() ==> same_row_layout(#[trigger] a.rows[i], b.rows[i])
}

/// Selecting any built-in theme makes it exactly the selected theme.
pub proof fn selecting_sets_theme(state: PaletteViewer, theme: usize)
    requires
        theme < THEME_COUNT,
    ensures
        next_state(state, Message::ThemeSelected(theme)).theme == theme,
        next_state(state, Message::ThemeSelected(theme)).wf(),
{
}

/// Rendering depends on the state alone: two renderings of one state show
/// the same labels, fills and text colours.
pub proof fn rendering_is_repeatable(first: PaletteViewer, second: PaletteViewer)
    requires
        first.wf(),
        first == second,
    ensures
        screen_of(first.theme) == screen_of(second.theme),
        swatch_colors(screen_of(first.theme)) == swatch_colors(screen_of(second.theme)),
{
}

/// Switching from theme `a` to theme `b` and back to `a` shows exactly the
/// swatch colours that `a` showed before the switch.
pub proof fn switching_back_restores_colors(state: PaletteViewer, a: usize, b: usize)
    requires
        state.wf(),
        a < THEME_COUNT,
        b < THEME_COUNT,
    ensures
        ({
            let on_a = next_state(state, Message::ThemeSelected(a));
            let on_b = next_state(on_a, Message::ThemeSelected(b));
            let back = next_state(on_b, Message::ThemeSelected(a));
            swatch_colors(screen_of(back.theme)) == swatch_colors(screen_of(on_a.theme))
        }),
{
}

/// Every screen has one row per category, in order: three swatches for the
/// primary, success, danger and warning rows, eight for the background row.
pub proof fn swatch_counts(theme: usize)
    requires
        theme < THEME_COUNT,
    ensures
        screen_of(theme).rows.len() == 5,
        forall|i: int| 0 <= i < 5 ==> (#[trigger] screen_of(theme).rows[i]).category == categories()[i],
        screen_of(theme).rows[0].swatches.len() == 3,
        screen_of(theme).rows[1].swatches.len() == 3,
        screen_of(theme).rows[2].swatches.len() == 3,
        screen_of(theme).rows[3].swatches.len() == 3,
        screen_of(theme).rows[4].swatches.len() == 8,
        screen_of(theme).rows[4].category == Category::Background,
{
    assert(shades_of(Category::Primary).len() == 3);
    assert(shades_of(Category::Background).len() == 8);
}

/// Any event leaves the layout of the screen as it was: only the colours
/// of the swatches (and the theme the picker shows) change.
pub proof fn theme_change_keeps_layout(state: PaletteViewer, message: Message)
    requires
        state.wf(),
        message.wf(),
    ensures
        same_layout(screen_of(state.theme), screen_of(next_state(state, message).theme)),
{
    let a = screen_of(state.theme);
    let b = screen_of(next_state(state, message).theme);
    assert forall|i: int| 0 <= i < a.rows.len() implies same_row_layout(#[trigger] a.rows[i], b.rows[i]) by {
        let c = categories()[i];
        assert(a.rows[i].swatches.len() == shades_of(c).len());
        assert(b.rows[i].swatches.len() == shades_of(c).len());
    }
}

} // verus!
