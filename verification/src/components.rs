use vstd::prelude::*;

use crate::color::Color;
use crate::text::{HorizontalTextAlignment, TextStyle, VerticalTextAlignment};

verus! {

/// A component that fills its entire domain with one color.
pub struct FlatColorComponent {
    color: Color,
}

impl FlatColorComponent {
    /// The color of this component.
    pub closed spec fn color(&self) -> Color {
        self.color
    }

    /// Constructs the component that fills its domain with `color`.
    pub fn new(color: Color) -> (r: Self)
        ensures
            r.color() == color,
    {
        FlatColorComponent { color }
    }

    /// Gets the color of this component.
    pub fn get_color(&self) -> (r: Color)
        ensures
            r == self.color(),
    {
        self.color
    }
}

/// A component that clears its entire domain to one color.
pub struct SimpleFlatColorComponent {
    color: Color,
}

impl SimpleFlatColorComponent {
    /// The color of this component.
    pub closed spec fn color(&self) -> Color {
        self.color
    }

    /// Constructs the component that clears its domain to `color`.
    pub fn new(color: Color) -> (r: Self)
        ensures
            r.color() == color,
    {
        SimpleFlatColorComponent { color }
    }

    /// Gets the color of this component.
    pub fn get_color(&self) -> (r: Color)
        ensures
            r == self.color(),
    {
        self.color
    }
}

/// A placeholder component that is never attached or rendered; it only takes
/// the place of a component while the real one is being swapped.
pub struct DummyComponent {}

/// A component that draws one line of text with a fixed style and alignment.
pub struct SimpleTextComponent {
    text: String,
    horizontal_alignment: HorizontalTextAlignment,
    vertical_alignment: VerticalTextAlignment,
    style: TextStyle,
}

impl SimpleTextComponent {
    /// The text of this component.
    pub closed spec fn text(&self) -> Seq<char> {
        self.text@
    }

    /// The horizontal alignment of the text.
    pub closed spec fn horizontal_alignment(&self) -> HorizontalTextAlignment {
        self.horizontal_alignment
    }

    /// The vertical alignment of the text.
    pub closed spec fn vertical_alignment(&self) -> VerticalTextAlignment {
        self.vertical_alignment
    }

    /// The style of the text.
    pub closed spec fn style(&self) -> TextStyle {
        self.style
    }

    /// Constructs the component that draws `text` with the given alignments
    /// and style.
    pub fn new(
        text: String,
        horizontal_alignment: HorizontalTextAlignment,
        vertical_alignment: VerticalTextAlignment,
        style: TextStyle,
    ) -> (r: Self)
        ensures
            r.text() == text@,
            r.horizontal_alignment() == horizontal_alignment,
            r.vertical_alignment() == vertical_alignment,
            r.style() == style,
    {
        SimpleTextComponent { text, horizontal_alignment, vertical_alignment, style }
    }

    /// Gets the text of this component.
    pub fn get_text(&self) -> (r: &str)
        ensures
            r@ == self.text(),
    {
        self.text.as_str()
    }

    /// Gets the horizontal alignment of the text.
    pub fn get_horizontal_alignment(&self) -> (r: HorizontalTextAlignment)
        ensures
            r == self.horizontal_alignment(),
    {
        self.horizontal_alignment
    }

    /// Gets the vertical alignment of the text.
    pub fn get_vertical_alignment(&self) -> (r: VerticalTextAlignment)
        ensures
            r == self.vertical_alignment(),
    {
        self.vertical_alignment
    }

    /// Gets the style of the text.
    pub fn get_style(&self) -> (r: &TextStyle)
        ensures
            *r == self.style(),
    {
        &self.style
    }
}

} // verus!
