//! Layout: anchors and rectangles resolved against the terminal's viewport.

pub mod anchors;
pub mod pane;

pub use crate::ui::anchors::{
    Anchor, AnchorHandle, Cords, Fraction, Offset, Rect, RectHandle, TuiAnchors,
};
