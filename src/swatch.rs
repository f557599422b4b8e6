//! Swatches: one labelled rectangle per colour role of the extended palette,
//! grouped into one row per category.
use vstd::prelude::*;

use iced::theme::palette::{Extended, Pair};
use iced::Color;

verus! {

/// Width of a swatch, in logical pixels.
pub const SWATCH_WIDTH: u16 = 120;

/// Height of a swatch, in logical pixels.
pub const SWATCH_HEIGHT: u16 = 80;

/// Text size of a swatch's label.
pub const LABEL_SIZE: u16 = 14;

/// Horizontal space between the swatches of a row.
pub const ROW_SPACING: u16 = 10;

/// A semantic colour role of the extended palette that has a row.
#[derive(Clone, Copy, Debug, PartialEq, Eq, Structural)]
pub enum Category {
    Primary,
    Success,
    Danger,
    Warning,
    Background,
}

/// An intensity variant of a colour role.
#[derive(Clone, Copy, Debug, PartialEq, Eq, Structural)]
pub enum Shade {
    Base,
    Neutral,
    Strong,
    Stronger,
    Strongest,
    Weak,
    Weaker,
    Weakest,
}

/// One rectangle of the screen: its fill, its label and the label's colour.
#[derive(Clone, Copy)]
pub struct Swatch {
    pub shade: Shade,
    pub label: &'static str,
    pub fill: Color,
    pub text: Color,
    pub width: u16,
    pub height: u16,
    pub label_size: u16,
}

/// The swatches of one category, laid out side by side.
pub struct SwatchRow {
    pub category: Category,
    pub spacing: u16,
    pub swatches: Vec<Swatch>,
}

/// What a row is: its category, its spacing and its swatches in order.
pub struct RowModel {
    pub category: Category,
    pub spacing: u16,
    pub swatches: Seq<Swatch>,
}

impl View for SwatchRow {
    type V = RowModel;

    open spec fn view(&self) -> RowModel {
        RowModel { category: self.category, spacing: self.spacing, swatches: self.swatches@ }
    }
}

/// The categories, in the order in which their rows are stacked.
pub open spec fn categories() -> Seq<Category> {
    seq![Category::Primary, Category::Success, Category::Danger, Category::Warning, Category::Background]
}

/// The shades that a category shows, left to right.
pub open spec fn shades_of(c: Category) -> Seq<Shade> {
    match c {
        Category::Background => seq![
            Shade::Base,
            Shade::Neutral,
            Shade::Strong,
            Shade::Stronger,
            Shade::Strongest,
            Shade::Weak,
            Shade::Weaker,
            Shade::Weakest,
        ],
        _ => seq![Shade::Base, Shade::Strong, Shade::Weak],
    }
}

/// Of a role with three shades, the pair of the given one (the base pair
/// for a shade that the role lacks).
pub open spec fn pick_of_three(base: Pair, strong: Pair, weak: Pair, s: Shade) -> Pair {
    match s {
        Shade::Strong => strong,
        Shade::Weak => weak,
        _ => base,
    }
}

/// The palette's fill and text colours for a category and shade.
pub open spec fn pair_of(p: Extended, c: Category, s: Shade) -> Pair {
    match c {
        Category::Primary => pick_of_three(p.primary.base, p.primary.strong, p.primary.weak, s),
        Category::Success => pick_of_three(p.success.base, p.success.strong, p.success.weak, s),
        Category::Danger => pick_of_three(p.danger.base, p.danger.strong, p.danger.weak, s),
        Category::Warning => pick_of_three(p.warning.base, p.warning.strong, p.warning.weak, s),
        Category::Background => match s {
            Shade::Base => p.background.base,
            Shade::Neutral => p.background.neutral,
            Shade::Strong => p.background.strong,
            Shade::Stronger => p.background.stronger,
            Shade::Strongest => p.background.strongest,
            Shade::Weak => p.background.weak,
            Shade::Weaker => p.background.weaker,
            Shade::Weakest => p.background.weakest,
        },
    }
}

/// The label of a swatch: the category's name, then the shade's (empty for
/// a shade that the category does not show).
pub open spec fn label_of(c: Category, s: Shade) -> &'static str {
    match (c, s) {
        (Category::Primary, Shade::Base) => "Primary Base",
        (Category::Primary, Shade::Strong) => "Primary Strong",
        (Category::Primary, Shade::Weak) => "Primary Weak",
        (Category::Success, Shade::Base) => "Success Base",
        (Category::Success, Shade::Strong) => "Success Strong",
        (Category::Success, Shade::Weak) => "Success Weak",
        (Category::Danger, Shade::Base) => "Danger Base",
        (Category::Danger, Shade::Strong) => "Danger Strong",
        (Category::Danger, Shade::Weak) => "Danger Weak",
        (Category::Warning, Shade::Base) => "Warning Base",
        (Category::Warning, Shade::Strong) => "Warning Strong",
        (Category::Warning, Shade::Weak) => "Warning Weak",
        (Category::Background, Shade::Base) => "Background Base",
        (Category::Background, Shade::Neutral) => "Background Neutral",
        (Category::Background, Shade::Strong) => "Background Strong",
        (Category::Background, Shade::Stronger) => "Background Stronger",
        (Category::Background, Shade::Strongest) => "Background Strongest",
        (Category::Background, Shade::Weak) => "Background Weak",
        (Category::Background, Shade::Weaker) => "Background Weaker",
        (Category::Background, Shade::Weakest) => "Background Weakest",
        _ => "",
    }
}

/// The swatch of a category and shade, coloured by a pair of the palette.
pub open spec fn swatch_of(pair: Pair, c: Category, s: Shade) -> Swatch {
    Swatch {
        shade: s,
        label: label_of(c, s),
        fill: pair.color,
        text: pair.text,
        width: SWATCH_WIDTH,
        height: SWATCH_HEIGHT,
        label_size: LABEL_SIZE,
    }
}

/// The row of a category, coloured by a palette.
pub open spec fn row_of(p: Extended, c: Category) -> RowModel {
    RowModel {
        category: c,
        spacing: ROW_SPACING,
        swatches: shades_of(c).map_values(|s: Shade| swatch_of(pair_of(p, c, s), c, s)),
    }
}

/// The categories, in the order in which their rows are stacked.
pub fn category_list() -> (r: Vec<Category>)
    ensures
        r@ == categories(),
{
    let r = vec![Category::Primary, Category::Success, Category::Danger, Category::Warning, Category::Background];
    assert(r@ =~= categories());
    r
}

/// The shades that a category shows, left to right.
pub fn shades(c: Category) -> (r: Vec<Shade>)
    ensures
        r@ == shades_of(c),
{
    let r = match c {
        Category::Background => vec![
            Shade::Base,
            Shade::Neutral,
            Shade::Strong,
            Shade::Stronger,
            Shade::Strongest,
            Shade::Weak,
            Shade::Weaker,
            Shade::Weakest,
        ],
        _ => vec![Shade::Base, Shade::Strong, Shade::Weak],
    };
    assert(r@ =~= shades_of(c));
    r
}

/// The palette's fill and text colours for a category and shade.
pub fn pair(p: &Extended, c: Category, s: Shade) -> (r: Pair)
    ensures
        r == pair_of(*p, c, s),
{
    match c {
        Category::Primary => match s {
            Shade::Strong => p.primary.strong,
            Shade::Weak => p.primary.weak,
            _ => p.primary.base,
        },
        Category::Success => match s {
            Shade::Strong => p.success.strong,
            Shade::Weak => p.success.weak,
            _ => p.success.base,
        },
        Category::Danger => match s {
            Shade::Strong => p.danger.strong,
            Shade::Weak => p.danger.weak,
            _ => p.danger.base,
        },
        Category::Warning => match s {
            Shade::Strong => p.warning.strong,
            Shade::Weak => p.warning.weak,
            _ => p.warning.base,
        },
        Category::Background => match s {
            Shade::Base => p.background.base,
            Shade::Neutral => p.background.neutral,
            Shade::Strong => p.background.strong,
            Shade::Stronger => p.background.stronger,
            Shade::Strongest => p.background.strongest,
            Shade::Weak => p.background.weak,
            Shade::Weaker => p.background.weaker,
            Shade::Weakest => p.background.weakest,
        },
    }
}

/// The label of a swatch.
pub fn label(c: Category, s: Shade) -> (r: &'static str)
    ensures
        r == label_of(c, s),
{
    match (c, s) {
        (Category::Primary, Shade::Base) => "Primary Base",
        (Category::Primary, Shade::Strong) => "Primary Strong",
        (Category::Primary, Shade::Weak) => "Primary Weak",
        (Category::Success, Shade::Base) => "Success Base",
        (Category::Success, Shade::Strong) => "Success Strong",
        (Category::Success, Shade::Weak) => "Success Weak",
        (Category::Danger, Shade::Base) => "Danger Base",
        (Category::Danger, Shade::Strong) => "Danger Strong",
        (Category::Danger, Shade::Weak) => "Danger Weak",
        (Category::Warning, Shade::Base) => "Warning Base",
        (Category::Warning, Shade::Strong) => "Warning Strong",
        (Category::Warning, Shade::Weak) => "Warning Weak",
        (Category::Background, Shade::Base) => "Background Base",
        (Category::Background, Shade::Neutral) => "Background Neutral",
        (Category::Background, Shade::Strong) => "Background Strong",
        (Category::Background, Shade::Stronger) => "Background Stronger",
        (Category::Background, Shade::Strongest) => "Background Strongest",
        (Category::Background, Shade::Weak) => "Background Weak",
        (Category::Background, Shade::Weaker) => "Background Weaker",
        (Category::Background, Shade::Weakest) => "Background Weakest",
        _ => "",
    }
}

/// A swatch filled with a pair's colour, its label in the pair's text colour.
pub fn swatch(color: &Pair, c: Category, s: Shade) -> (r: Swatch)
    ensures
        r == swatch_of(*color, c, s),
{
    Swatch {
        shade: s,
        label: label(c, s),
        fill: color.color,
        text: color.text,
        width: SWATCH_WIDTH,
        height: SWATCH_HEIGHT,
        label_size: LABEL_SIZE,
    }
}

/// The row of a category, coloured by a palette.
pub fn row(p: &Extended, c: Category) -> (r: SwatchRow)
    ensures
        r@ == row_of(*p, c),
{
    let kinds = shades(c);
    let mut swatches: Vec<Swatch> = Vec::new();
    let mut i: usize = 0;
    while i < kinds.len()
        invariant
            i <= kinds@.len(),
            kinds@ == shades_of(c),
            swatches@ =~= kinds@.take(i as int).map_values(
                |s: Shade| swatch_of(pair_of(*p, c, s), c, s),
            ),
        decreases kinds@.len() - i,
    {
        let s = kinds[i];
        let colors = pair(p, c, s);
        swatches.push(swatch(&colors, c, s));
        assert(kinds@.take(i + 1) =~= kinds@.take(i as int).push(s));
        i = i + 1;
    }
    assert(kinds@.take(i as int) =~= kinds@);
    SwatchRow { category: c, spacing: ROW_SPACING, swatches }
}

} // verus!
