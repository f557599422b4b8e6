use iced::Theme;
use palette_viewer::palette::{is_builtin, LIGHT, THEME_COUNT};
use palette_viewer::swatch::{
    label, pair, row, shades, Category, Shade, LABEL_SIZE, ROW_SPACING, SWATCH_HEIGHT, SWATCH_WIDTH,
};
use palette_viewer::viewer::{
    update, view, Message, PaletteView, PaletteViewer, COLUMN_SPACING, PADDING, PICKER_GAP,
    TITLE_SIZE,
};

fn tuples(v: &PaletteView) -> Vec<Vec<(&'static str, iced::Color, iced::Color)>> {
    v.rows
        .iter()
        .map(|r| r.swatches.iter().map(|s| (s.label, s.fill, s.text)).collect())
        .collect()
}

fn layout(v: &PaletteView) -> Vec<(Category, u16, Vec<(Shade, &'static str, u16, u16, u16)>)> {
    v.rows
        .iter()
        .map(|r| {
            let cells = r
                .swatches
                .iter()
                .map(|s| (s.shade, s.label, s.width, s.height, s.label_size))
                .collect();
            (r.category, r.spacing, cells)
        })
        .collect()
}

#[test]
fn theme_count_matches_builtin_list() {
    assert_eq!(THEME_COUNT, Theme::ALL.len());
    assert_eq!(Theme::ALL[LIGHT], Theme::Light);
}

#[test]
fn starts_on_light_theme() {
    let state = PaletteViewer::default();
    assert_eq!(state.theme, LIGHT);
}

#[test]
fn is_builtin_bounds() {
    assert!(is_builtin(0));
    assert!(is_builtin(THEME_COUNT - 1));
    assert!(!is_builtin(THEME_COUNT));
}

#[test]
fn selecting_each_theme_sets_it() {
    let mut state = PaletteViewer::default();
    for t in 0..THEME_COUNT {
        update(&mut state, Message::ThemeSelected(t));
        assert_eq!(state.theme, t);
        assert_eq!(view(&state).selected, t);
    }
}

#[test]
fn screen_colors_come_from_the_selected_theme() {
    let dark = view(&PaletteViewer { theme: 1 });
    let light = view(&PaletteViewer { theme: LIGHT });
    let expected = Theme::Dark.extended_palette();
    assert_eq!(dark.rows[4].swatches[0].fill, expected.background.base.color);
    assert_eq!(dark.rows[4].swatches[0].text, expected.background.base.text);
    assert_eq!(light.rows[4].swatches[0].fill, Theme::Light.extended_palette().background.base.color);
    assert_ne!(light.rows[4].swatches[0].fill, dark.rows[4].swatches[0].fill);
}

#[test]
fn pair_reads_the_named_field() {
    let p = *Theme::ALL[2].extended_palette();
    assert_eq!(pair(&p, Category::Background, Shade::Weakest), p.background.weakest);
    assert_eq!(pair(&p, Category::Background, Shade::Neutral), p.background.neutral);
    assert_eq!(pair(&p, Category::Danger, Shade::Strong), p.danger.strong);
    assert_eq!(pair(&p, Category::Warning, Shade::Weak), p.warning.weak);
    assert_eq!(pair(&p, Category::Success, Shade::Base), p.success.base);
    assert_eq!(pair(&p, Category::Primary, Shade::Strong), p.primary.strong);
}

#[test]
fn labels_name_category_and_shade() {
    assert_eq!(label(Category::Primary, Shade::Base), "Primary Base");
    assert_eq!(label(Category::Warning, Shade::Weak), "Warning Weak");
    assert_eq!(label(Category::Background, Shade::Strongest), "Background Strongest");
    assert_eq!(label(Category::Primary, Shade::Neutral), "");
}

#[test]
fn shades_per_category() {
    assert_eq!(shades(Category::Danger), vec![Shade::Base, Shade::Strong, Shade::Weak]);
    assert_eq!(shades(Category::Background).len(), 8);
}

#[test]
fn background_row_of_light_theme() {
    let p = Theme::Light.extended_palette();
    let r = row(p, Category::Background);
    assert_eq!(r.category, Category::Background);
    assert_eq!(r.spacing, ROW_SPACING);
    let labels: Vec<&str> = r.swatches.iter().map(|s| s.label).collect();
    assert_eq!(
        labels,
        vec![
            "Background Base",
            "Background Neutral",
            "Background Strong",
            "Background Stronger",
            "Background Strongest",
            "Background Weak",
            "Background Weaker",
            "Background Weakest",
        ]
    );
    assert_eq!(r.swatches[1].fill, p.background.neutral.color);
    assert_eq!(r.swatches[1].text, p.background.neutral.text);
    assert_eq!(r.swatches[7].fill, p.background.weakest.color);
}

#[test]
fn screen_of_nord_theme() {
    let state = PaletteViewer { theme: 3 };
    let v = view(&state);
    let p = Theme::Nord.extended_palette();
    assert_eq!(v.title, "Extended Palette");
    assert_eq!(v.placeholder, "Select a theme...");
    assert_eq!(v.title_size, TITLE_SIZE);
    assert_eq!(v.picker_gap, PICKER_GAP);
    assert_eq!(v.column_spacing, COLUMN_SPACING);
    assert_eq!(v.padding, PADDING);
    let order: Vec<Category> = v.rows.iter().map(|r| r.category).collect();
    assert_eq!(
        order,
        vec![Category::Primary, Category::Success, Category::Danger, Category::Warning, Category::Background]
    );
    assert_eq!(v.rows[0].swatches[0].label, "Primary Base");
    assert_eq!(v.rows[0].swatches[0].fill, p.primary.base.color);
    assert_eq!(v.rows[0].swatches[0].text, p.primary.base.text);
    assert_eq!(v.rows[1].swatches[1].label, "Success Strong");
    assert_eq!(v.rows[1].swatches[1].fill, p.success.strong.color);
    assert_eq!(v.rows[2].swatches[2].label, "Danger Weak");
    assert_eq!(v.rows[2].swatches[2].text, p.danger.weak.text);
    assert_eq!(v.rows[3].swatches[0].fill, p.warning.base.color);
    for r in &v.rows {
        for s in &r.swatches {
            assert_eq!((s.width, s.height, s.label_size), (SWATCH_WIDTH, SWATCH_HEIGHT, LABEL_SIZE));
        }
    }
}

#[test]
fn swatch_counts_per_category() {
    for t in 0..THEME_COUNT {
        let v = view(&PaletteViewer { theme: t });
        let counts: Vec<usize> = v.rows.iter().map(|r| r.swatches.len()).collect();
        assert_eq!(counts, vec![3, 3, 3, 3, 8]);
    }
}

#[test]
fn rendering_twice_gives_same_swatches() {
    let state = PaletteViewer { theme: 11 };
    assert_eq!(tuples(&view(&state)), tuples(&view(&state)));
}

#[test]
fn switching_away_and_back_restores_colors() {
    let mut state = PaletteViewer::default();
    update(&mut state, Message::ThemeSelected(4));
    let before = tuples(&view(&state));
    update(&mut state, Message::ThemeSelected(7));
    assert_ne!(tuples(&view(&state)), before);
    update(&mut state, Message::ThemeSelected(4));
    assert_eq!(tuples(&view(&state)), before);
}

#[test]
fn layout_is_the_same_for_every_theme() {
    let first = layout(&view(&PaletteViewer::default()));
    let mut state = PaletteViewer::default();
    for t in 0..THEME_COUNT {
        update(&mut state, Message::ThemeSelected(t));
        assert_eq!(layout(&view(&state)), first);
    }
}
