//! Colours for drawing the board on a terminal.
use vstd::prelude::*;

use crate::text::{decimal, push_char, push_decimal};

verus! {

/// An RGB colour.
#[derive(Debug, Clone, Copy, PartialEq, Eq, Structural)]
pub struct Color(u8, u8, u8);

/// The colours of the two kinds of squares.
#[derive(Debug, Clone, Copy, PartialEq, Eq, Structural)]
pub struct BoardColor(Color, Color);

impl View for Color {
    type V = (u8, u8, u8);

    closed spec fn view(&self) -> (u8, u8, u8) {
        (self.0, self.1, self.2)
    }
}

impl View for BoardColor {
    type V = ((u8, u8, u8), (u8, u8, u8));

    closed spec fn view(&self) -> ((u8, u8, u8), (u8, u8, u8)) {
        (self.0@, self.1@)
    }
}

/// The ANSI escape sequence that sets a 24-bit colour: `layer` is '3' for the
/// foreground and '4' for the background.
pub open spec fn ansi_color(layer: char, c: (u8, u8, u8)) -> Seq<char> {
    seq!['\x1b', '[', layer, '8', ';', '2', ';'] + decimal(c.0 as nat) + seq![';'] + decimal(
        c.1 as nat,
    ) + seq![';'] + decimal(c.2 as nat) + seq!['m']
}

impl Color {
    pub fn new(color: (u8, u8, u8)) -> (r: Self)
        ensures
            r@ == color,
    {
        Color(color.0, color.1, color.2)
    }

    pub fn rgb(&self) -> (r: (u8, u8, u8))
        ensures
            r == self@,
    {
        (self.0, self.1, self.2)
    }

    fn escape(&self, layer: char) -> (r: String)
        ensures
            r@ == ansi_color(layer, self@),
    {
        let mut s = String::new();
        push_char(&mut s, '\x1b');
        push_char(&mut s, '[');
        push_char(&mut s, layer);
        push_char(&mut s, '8');
        push_char(&mut s, ';');
        push_char(&mut s, '2');
        push_char(&mut s, ';');
        push_decimal(&mut s, self.0);
        push_char(&mut s, ';');
        push_decimal(&mut s, self.1);
        push_char(&mut s, ';');
        push_decimal(&mut s, self.2);
        push_char(&mut s, 'm');
        assert(s@ =~= ansi_color(layer, self@));
        s
    }

    /// The escape sequence that sets this colour as the text colour.
    pub fn foreground(&self) -> (r: String)
        ensures
            r@ == ansi_color('3', self@),
    {
        self.escape('3')
    }

    /// The escape sequence that sets this colour as the background colour.
    pub fn background(&self) -> (r: String)
        ensures
            r@ == ansi_color('4', self@),
    {
        self.escape('4')
    }
}

impl From<(u8, u8, u8)> for Color {
    fn from(rgb: (u8, u8, u8)) -> (r: Self)
        ensures
            r@ == rgb,
    {
        Color(rgb.0, rgb.1, rgb.2)
    }
}

impl vstd::std_specs::convert::FromSpecImpl<(u8, u8, u8)> for Color {
    open spec fn obeys_from_spec() -> bool {
        true
    }

    closed spec fn from_spec(rgb: (u8, u8, u8)) -> Color {
        Color(rgb.0, rgb.1, rgb.2)
    }
}

impl BoardColor {
    pub fn new(foreground: Color, background: Color) -> (r: Self)
        ensures
            r@ == (foreground@, background@),
    {
        BoardColor(foreground, background)
    }

    pub fn rgb(&self) -> (r: (&Color, &Color))
        ensures
            (r.0@, r.1@) == self@,
    {
        (&self.0, &self.1)
    }
}

impl From<((u8, u8, u8), (u8, u8, u8))> for BoardColor {
    fn from(theme: ((u8, u8, u8), (u8, u8, u8))) -> (r: Self)
        ensures
            r@ == theme,
    {
        BoardColor::new(Color::new(theme.0), Color::new(theme.1))
    }
}

impl vstd::std_specs::convert::FromSpecImpl<((u8, u8, u8), (u8, u8, u8))> for BoardColor {
    open spec fn obeys_from_spec() -> bool {
        true
    }

    closed spec fn from_spec(theme: ((u8, u8, u8), (u8, u8, u8))) -> BoardColor {
        BoardColor(Color(theme.0.0, theme.0.1, theme.0.2), Color(theme.1.0, theme.1.1, theme.1.2))
    }
}

} // verus!
