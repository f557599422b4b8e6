//! The extended palette of the built-in themes, as the theme module of the
//! toolkit derives it.
use vstd::prelude::*;

use iced::theme::palette::{Background, Danger, Extended, Pair, Primary, Secondary, Success, Warning};
use iced::{Color, Theme};

verus! {

/// A colour of the toolkit. Its channels are floating point: the library
/// carries colours through without looking inside them.
#[verifier::external_type_specification]
#[verifier::external_body]
pub struct ExColor(Color);

/// A fill colour and the text colour that contrasts with it.
#[verifier::external_type_specification]
pub struct ExPair(Pair);

/// The eight shades of the background.
#[verifier::external_type_specification]
pub struct ExBackground(Background);

/// The three shades of the primary colour.
#[verifier::external_type_specification]
pub struct ExPrimary(Primary);

/// The three shades of the secondary colour (a field of the extended
/// palette that no row shows).
#[verifier::external_type_specification]
pub struct ExSecondary(Secondary);

/// The three shades of the success colour.
#[verifier::external_type_specification]
pub struct ExSuccess(Success);

/// The three shades of the warning colour.
#[verifier::external_type_specification]
pub struct ExWarning(Warning);

/// The three shades of the danger colour.
#[verifier::external_type_specification]
pub struct ExDanger(Danger);

/// The extended palette: each semantic role with its shades.
#[verifier::external_type_specification]
pub struct ExExtended(Extended);

/// How many built-in themes there are: the length of `Theme::ALL`.
pub const THEME_COUNT: usize = 22;

/// The position of the light theme, the first of `Theme::ALL`.
pub const LIGHT: usize = 0;

/// The extended palette of the built-in theme at a position of `Theme::ALL`.
pub uninterp spec fn extended_of(theme: usize) -> Extended;

/// Relies on `Theme::ALL` and `Theme::extended_palette`: a built-in theme's
/// extended palette is a fixed value, generated once from that theme's base
/// palette, so it depends on the position in the list alone. Indexing past
/// the end of the list panics, hence the bound.
#[verifier::external_body]
pub(crate) fn extended_palette(theme: usize) -> (r: Extended)
    requires
        theme < THEME_COUNT,
    ensures
        r == extended_of(theme),
{
    *Theme::ALL[theme].extended_palette()
}

/// Whether a position names a built-in theme.
pub fn is_builtin(theme: usize) -> (r: bool)
    ensures
        r == (theme < THEME_COUNT),
{
    theme < THEME_COUNT
}

} // verus!
