use vstd::prelude::*;

verus! {

/// A color given by 8-bit red, green, blue and alpha (opacity) components.
#[derive(Copy, Clone, PartialEq, Eq, Debug, Structural)]
pub struct Color {
    red: u8,
    green: u8,
    blue: u8,
    alpha: u8,
}

impl Color {
    /// The red component.
    pub closed spec fn red(self) -> u8 {
        self.red
    }

    /// The green component.
    pub closed spec fn green(self) -> u8 {
        self.green
    }

    /// The blue component.
    pub closed spec fn blue(self) -> u8 {
        self.blue
    }

    /// The alpha (opacity) component.
    pub closed spec fn alpha(self) -> u8 {
        self.alpha
    }

    /// Constructs the fully opaque color with the given components.
    pub fn rgb(red: u8, green: u8, blue: u8) -> (r: Self)
        ensures
            r.red() == red,
            r.green() == green,
            r.blue() == blue,
            r.alpha() == 255,
    {
        Color { red, green, blue, alpha: 255 }
    }

    /// Constructs the color with the given components.
    pub fn rgba(red: u8, green: u8, blue: u8, alpha: u8) -> (r: Self)
        ensures
            r.red() == red,
            r.green() == green,
            r.blue() == blue,
            r.alpha() == alpha,
    {
        Color { red, green, blue, alpha }
    }

    /// Gets the red component.
    pub fn get_red_int(&self) -> (r: u8)
        ensures
            r == self.red(),
    {
        self.red
    }

    /// Gets the green component.
    pub fn get_green_int(&self) -> (r: u8)
        ensures
            r == self.green(),
    {
        self.green
    }

    /// Gets the blue component.
    pub fn get_blue_int(&self) -> (r: u8)
        ensures
            r == self.blue(),
    {
        self.blue
    }

    /// Gets the alpha component.
    pub fn get_alpha_int(&self) -> (r: u8)
        ensures
            r == self.alpha(),
    {
        self.alpha
    }
}

/// Two colors are equal exactly when all four components are equal.
pub proof fn lemma_color_eq(a: Color, b: Color)
    ensures
        (a == b) <==> (a.red() == b.red() && a.green() == b.green() && a.blue() == b.blue() && a.alpha() == b.alpha()),
{
}

} // verus!
