//! The state and the screen of a viewer for the extended palette of the
//! built-in themes: one selected theme, and rows of labelled swatches whose
//! colours are read from that theme's palette.
pub mod palette;
pub mod swatch;
pub mod viewer;
pub mod laws;
