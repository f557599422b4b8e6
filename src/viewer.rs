//! The viewer's state, its one event, and the screen derived from the state.
use vstd::prelude::*;

use crate::palette::{extended_of, extended_palette, LIGHT, THEME_COUNT};
use crate::swatch::{categories, category_list, row, row_of, RowModel, SwatchRow};

verus! {

/// Space between the theme picker and the title.
pub const PICKER_GAP: u16 = 20;

/// Text size of the title.
pub const TITLE_SIZE: u16 = 20;

/// Vertical space between the stacked parts of the screen.
pub const COLUMN_SPACING: u16 = 10;

/// Space around the content, which is centred in the window.
pub const PADDING: u16 = 20;

/// The state: the position in `Theme::ALL` of the selected theme.
pub struct PaletteViewer {
    pub theme: usize,
}

impl PaletteViewer {
    /// The selected theme is a built-in one.
    pub open spec fn wf(&self) -> bool {
        self.theme < THEME_COUNT
    }
}

impl Default for PaletteViewer {
    /// The viewer starts on the light theme.
    fn default() -> (r: Self)
        ensures
            r.theme == LIGHT,
            r.wf(),
    {
        PaletteViewer { theme: LIGHT }
    }
}

/// An event of the viewer.
#[derive(Clone, Copy, Debug, PartialEq, Eq, Structural)]
pub enum Message {
    /// The user picked the built-in theme at this position of `Theme::ALL`.
    ThemeSelected(usize),
}

impl Message {
    /// The message names a built-in theme.
    pub open spec fn wf(&self) -> bool {
        match *self {
            Message::ThemeSelected(t) => t < THEME_COUNT,
        }
    }
}

/// The state after an event: the picked theme replaces the selected one.
pub open spec fn next_state(state: PaletteViewer, message: Message) -> PaletteViewer {
    match message {
        Message::ThemeSelected(t) => PaletteViewer { theme: t },
    }
}

/// Applies an event to the state.
pub fn update(state: &mut PaletteViewer, message: Message)
    requires
        message.wf(),
    ensures
        *final(state) == next_state(*old(state), message),
        final(state).wf(),
        match message {
            Message::ThemeSelected(t) => final(state).theme == t,
        },
{
    match message {
        Message::ThemeSelected(theme) => state.theme = theme,
    }
}

/// Everything that the screen shows, top to bottom: the theme picker, a gap,
/// the title, and the rows of swatches, stacked and centred.
pub struct PaletteView {
    pub selected: usize,
    pub placeholder: &'static str,
    pub picker_gap: u16,
    pub title: &'static str,
    pub title_size: u16,
    pub column_spacing: u16,
    pub padding: u16,
    pub rows: Vec<SwatchRow>,
}

/// What a screen is, with each row as its model.
pub struct ScreenModel {
    pub selected: usize,
    pub placeholder: &'static str,
    pub picker_gap: u16,
    pub title: &'static str,
    pub title_size: u16,
    pub column_spacing: u16,
    pub padding: u16,
    pub rows: Seq<RowModel>,
}

impl View for PaletteView {
    type V = ScreenModel;

    open spec fn view(&self) -> ScreenModel {
        ScreenModel {
            selected: self.selected,
            placeholder: self.placeholder,
            picker_gap: self.picker_gap,
            title: self.title,
            title_size: self.title_size,
            column_spacing: self.column_spacing,
            padding: self.padding,
            rows: self.rows@.map_values(|r: SwatchRow| r@),
        }
    }
}

/// The screen of a built-in theme: one row per category, coloured by that
/// theme's extended palette.
pub open spec fn screen_of(theme: usize) -> ScreenModel {
    ScreenModel {
        selected: theme,
        placeholder: "Select a theme...",
        picker_gap: PICKER_GAP,
        title: "Extended Palette",
        title_size: TITLE_SIZE,
        column_spacing: COLUMN_SPACING,
        padding: PADDING,
        rows: categories().map_values(|c| row_of(extended_of(theme), c)),
    }
}

/// Derives the screen from the state, reading every colour from the palette
/// of the selected theme.
pub fn view(state: &PaletteViewer) -> (r: PaletteView)
    requires
        state.wf(),
    ensures
        r@ == screen_of(state.theme),
{
    let palette = extended_palette(state.theme);
    let order = category_list();
    let mut rows: Vec<SwatchRow> = Vec::new();
    let mut i: usize = 0;
    while i < order.len()
        invariant
            i <= order@.len(),
            order@ == categories(),
            palette == extended_of(state.theme),
            rows@.map_values(|r: SwatchRow| r@) =~= order@.take(i as int).map_values(
                |c| row_of(palette, c),
            ),
        decreases order@.len() - i,
    {
        let c = order[i];
        let next = row(&palette, c);
        let ghost before = rows@;
        rows.push(next);
        assert(rows@.map_values(|r: SwatchRow| r@) =~= before.map_values(|r: SwatchRow| r@).push(
            next@,
        ));
        assert(order@.take(i + 1) =~= order@.take(i as int).push(c));
        i = i + 1;
    }
    assert(order@.take(i as int) =~= order@);
    let r = PaletteView {
        selected: state.theme,
        placeholder: "Select a theme...",
        picker_gap: PICKER_GAP,
        title: "Extended Palette",
        title_size: TITLE_SIZE,
        column_spacing: COLUMN_SPACING,
        padding: PADDING,
        rows,
    };
    assert(r@.rows =~= screen_of(state.theme).rows);
    r
}

} // verus!
