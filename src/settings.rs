use vstd::prelude::*;

verus! {

/// A colour as the user interface stores it: red, green, blue and alpha
/// bytes, with the colour premultiplied by alpha.
#[derive(Clone, Copy, Debug, PartialEq, Eq, Structural)]
pub struct Color {
    pub r: u8,
    pub g: u8,
    pub b: u8,
    pub a: u8,
}

impl Color {
    /// The fully transparent colour.
    pub open spec fn is_transparent(self) -> bool {
        self.r == 0 && self.g == 0 && self.b == 0 && self.a == 0
    }
}

impl Default for Color {
    fn default() -> (r: Self)
        ensures
            r.is_transparent(),
    {
        Color { r: 0, g: 0, b: 0, a: 0 }
    }
}

/// The preferences of a user.
#[derive(Clone, Copy, Debug, PartialEq, Eq, Structural)]
pub struct Settings {
    pub dark_mode: bool,
    pub show_password: bool,
    pub color1: Color,
    pub color2: Color,
    pub color3: Color,
}

impl Default for Settings {
    fn default() -> (r: Self)
        ensures
            !r.dark_mode,
            !r.show_password,
            r.color1.is_transparent(),
            r.color2.is_transparent(),
            r.color3.is_transparent(),
    {
        Settings {
            dark_mode: false,
            show_password: false,
            color1: Color::default(),
            color2: Color::default(),
            color3: Color::default(),
        }
    }
}

/// Options of the sign-up form.
#[derive(Clone, Copy, Debug, PartialEq, Eq, Structural)]
pub struct SettingsSignUp {
    pub show_password: bool,
}

impl SettingsSignUp {
    /// The password is hidden.
    pub fn default() -> (r: Self)
        ensures
            !r.show_password,
    {
        Self { show_password: false }
    }
}

} // verus!
