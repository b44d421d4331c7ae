//! Colors and text styles of the process panel.

use vstd::prelude::*;
use crate::error::Error;
use crate::text::{
    chars_of, copy_str, has_prefix, is_text, lowercase, parse_u8, parse_unsigned, pieces, split,
    split_seq, starts_with, suffix_from, to_lower,
};

verus! {

/// A color of the terminal: one of the sixteen palette entries, or a
/// red-green-blue triple.
#[derive(Clone, Copy, Debug, PartialEq, Eq, Structural)]
pub enum Color {
    Red,
    Green,
    Blue,
    Yellow,
    Cyan,
    Magenta,
    Black,
    White,
    LightRed,
    LightGreen,
    LightBlue,
    LightYellow,
    LightCyan,
    LightMagenta,
    LightBlack,
    LightWhite,
    Rgb(u8, u8, u8),
}

/// A way of setting text apart.
#[derive(Clone, Copy, Debug, PartialEq, Eq, Structural)]
pub enum Style {
    Bold,
}

/// The palette entry with the given lowercase name.
pub open spec fn named_color(name: Seq<char>) -> Option<Color> {
    if name == "red"@ {
        Some(Color::Red)
    } else if name == "green"@ {
        Some(Color::Green)
    } else if name == "blue"@ {
        Some(Color::Blue)
    } else if name == "yellow"@ {
        Some(Color::Yellow)
    } else if name == "cyan"@ {
        Some(Color::Cyan)
    } else if name == "magenta"@ {
        Some(Color::Magenta)
    } else if name == "black"@ {
        Some(Color::Black)
    } else if name == "white"@ {
        Some(Color::White)
    } else if name == "lightred"@ {
        Some(Color::LightRed)
    } else if name == "lightgreen"@ {
        Some(Color::LightGreen)
    } else if name == "lightblue"@ {
        Some(Color::LightBlue)
    } else if name == "lightyellow"@ {
        Some(Color::LightYellow)
    } else if name == "lightcyan"@ {
        Some(Color::LightCyan)
    } else if name == "lightmagenta"@ {
        Some(Color::LightMagenta)
    } else if name == "lightblack"@ {
        Some(Color::LightBlack)
    } else if name == "lightwhite"@ {
        Some(Color::LightWhite)
    } else {
        None
    }
}

/// The color written as three decimal bytes.
pub open spec fn rgb_color(parts: Seq<Seq<char>>) -> Option<Color> {
    if parts.len() == 3 && parse_unsigned(parts[0], 255).is_some() && parse_unsigned(
        parts[1],
        255,
    ).is_some() && parse_unsigned(parts[2], 255).is_some() {
        Some(
            Color::Rgb(
                parse_unsigned(parts[0], 255).unwrap() as u8,
                parse_unsigned(parts[1], 255).unwrap() as u8,
                parse_unsigned(parts[2], 255).unwrap() as u8,
            ),
        )
    } else {
        None
    }
}

/// The color that a lowercase configuration string stands for: `ansi` and the
/// name of a palette entry, or three decimal bytes with commas between them.
pub open spec fn color_of_lowercase(l: Seq<char>) -> Option<Color> {
    if has_prefix(l, "ansi"@) {
        named_color(l.skip("ansi"@.len() as int))
    } else {
        rgb_color(split_seq(l, ','))
    }
}

/// The color that a configuration string stands for, whatever its case.
pub open spec fn color_of(s: Seq<char>) -> Option<Color> {
    color_of_lowercase(lowercase(s))
}

fn palette_entry(name: &Vec<char>) -> (r: Option<Color>)
    ensures
        r == named_color(name@),
{
    if is_text(name, "red") {
        Some(Color::Red)
    } else if is_text(name, "green") {
        Some(Color::Green)
    } else if is_text(name, "blue") {
        Some(Color::Blue)
    } else if is_text(name, "yellow") {
        Some(Color::Yellow)
    } else if is_text(name, "cyan") {
        Some(Color::Cyan)
    } else if is_text(name, "magenta") {
        Some(Color::Magenta)
    } else if is_text(name, "black") {
        Some(Color::Black)
    } else if is_text(name, "white") {
        Some(Color::White)
    } else if is_text(name, "lightred") {
        Some(Color::LightRed)
    } else if is_text(name, "lightgreen") {
        Some(Color::LightGreen)
    } else if is_text(name, "lightblue") {
        Some(Color::LightBlue)
    } else if is_text(name, "lightyellow") {
        Some(Color::LightYellow)
    } else if is_text(name, "lightcyan") {
        Some(Color::LightCyan)
    } else if is_text(name, "lightmagenta") {
        Some(Color::LightMagenta)
    } else if is_text(name, "lightblack") {
        Some(Color::LightBlack)
    } else if is_text(name, "lightwhite") {
        Some(Color::LightWhite)
    } else {
        None
    }
}

fn triple(parts: &Vec<Vec<char>>) -> (r: Option<Color>)
    ensures
        r == rgb_color(pieces(parts@)),
{
    if parts.len() != 3 {
        return None;
    }
    let red = parse_u8(&parts[0]);
    let green = parse_u8(&parts[1]);
    let blue = parse_u8(&parts[2]);
    match (red, green, blue) {
        (Some(r), Some(g), Some(b)) => Some(Color::Rgb(r, g, b)),
        _ => None,
    }
}

/// Reads a color of the configuration, already in lowercase.
pub fn color_from_lowercase(l: &Vec<char>) -> (r: Option<Color>)
    ensures
        r == color_of_lowercase(l@),
{
    let prefix = chars_of("ansi");
    if starts_with(l, &prefix) {
        let name = suffix_from(l, prefix.len());
        palette_entry(&name)
    } else {
        let parts = split(l, ',');
        triple(&parts)
    }
}

/// Reads a color of the configuration: `ansi` followed by the name of a
/// palette entry, or `R,G,B` with three decimal bytes. Case does not matter.
/// Any other string is an error.
pub fn color_from_config_string(s: &str) -> (r: Result<Color, Error>)
    ensures
        match r {
            Ok(c) => color_of(s@) == Some(c),
            Err(e) => color_of(s@).is_none() && e@ == crate::error::ErrorView::Config(
                "Unknown color"@,
            ),
        },
{
    let low = to_lower(s);
    let l = chars_of(low.as_str());
    match color_from_lowercase(&l) {
        Some(c) => Ok(c),
        None => Err(Error::Config(copy_str("Unknown color"))),
    }
}


/// The text that writes a color as three decimal bytes.
pub open spec fn rgb_text(r: u8, g: u8, b: u8) -> Seq<char> {
    crate::text::decimal_digits(r as nat) + seq![','] + crate::text::decimal_digits(g as nat)
        + seq![','] + crate::text::decimal_digits(b as nat)
}

/// Three bytes written in decimal, with commas between them, are read as the
/// color with these bytes.
pub proof fn lemma_rgb_text_is_read(r: u8, g: u8, b: u8)
    ensures
        color_of_lowercase(rgb_text(r, g, b)) == Some(Color::Rgb(r, g, b)),
{
    let x = crate::text::decimal_digits(r as nat);
    let y = crate::text::decimal_digits(g as nat);
    let z = crate::text::decimal_digits(b as nat);
    crate::text::lemma_decimal_digits(r as nat);
    crate::text::lemma_decimal_digits(g as nat);
    crate::text::lemma_decimal_digits(b as nat);
    assert forall|i: int| 0 <= i < x.len() implies x[i] != ',' by {
        assert(crate::text::is_digit(x[i]));
    }
    assert forall|i: int| 0 <= i < y.len() implies y[i] != ',' by {
        assert(crate::text::is_digit(y[i]));
    }
    assert forall|i: int| 0 <= i < z.len() implies z[i] != ',' by {
        assert(crate::text::is_digit(z[i]));
    }
    let parts = seq![x, y, z];
    let text = rgb_text(r, g, b);
    assert(parts.drop_last() =~= seq![x, y]);
    assert(parts.drop_last().drop_last() =~= seq![x]);
    assert(crate::text::joined(seq![x], ',') == x);
    assert(crate::text::joined(seq![x, y], ',') =~= x + seq![','] + y);
    assert(crate::text::joined(parts, ',') =~= text);
    crate::text::lemma_split_of_joined(parts, ',');
    reveal_strlit("ansi");
    assert(crate::text::is_digit(x[0]));
    assert(text[0] == x[0]);
    if has_prefix(text, "ansi"@) {
        assert(text.subrange(0, 4)[0] == 'a');
    }
    assert(crate::text::is_digit(y[0]));
    assert(crate::text::is_digit(z[0]));
}

/// The names of the palette, behind `ansi`, are read as its eight plain
/// colors.
pub proof fn lemma_palette_names_are_read()
    ensures
        color_of_lowercase("ansired"@) == Some(Color::Red),
        color_of_lowercase("ansigreen"@) == Some(Color::Green),
        color_of_lowercase("ansiblue"@) == Some(Color::Blue),
        color_of_lowercase("ansiyellow"@) == Some(Color::Yellow),
        color_of_lowercase("ansicyan"@) == Some(Color::Cyan),
        color_of_lowercase("ansimagenta"@) == Some(Color::Magenta),
        color_of_lowercase("ansiblack"@) == Some(Color::Black),
        color_of_lowercase("ansiwhite"@) == Some(Color::White),
{
    reveal_strlit("ansi");
    reveal_strlit("red");
    reveal_strlit("green");
    reveal_strlit("blue");
    reveal_strlit("yellow");
    reveal_strlit("cyan");
    reveal_strlit("magenta");
    reveal_strlit("black");
    reveal_strlit("white");
    reveal_strlit("ansired");
    reveal_strlit("ansigreen");
    reveal_strlit("ansiblue");
    reveal_strlit("ansiyellow");
    reveal_strlit("ansicyan");
    reveal_strlit("ansimagenta");
    reveal_strlit("ansiblack");
    reveal_strlit("ansiwhite");
    assert("cyan"@[0] != "blue"@[0]);
    assert("black"@[0] != "green"@[0]);
    assert("white"@[0] != "green"@[0] && "white"@[0] != "black"@[0]);
    assert("ansired"@.subrange(0, 4) =~= "ansi"@ && "ansired"@.skip(4) =~= "red"@);
    assert("ansigreen"@.subrange(0, 4) =~= "ansi"@ && "ansigreen"@.skip(4) =~= "green"@);
    assert("ansiblue"@.subrange(0, 4) =~= "ansi"@ && "ansiblue"@.skip(4) =~= "blue"@);
    assert("ansiyellow"@.subrange(0, 4) =~= "ansi"@ && "ansiyellow"@.skip(4) =~= "yellow"@);
    assert("ansicyan"@.subrange(0, 4) =~= "ansi"@ && "ansicyan"@.skip(4) =~= "cyan"@);
    assert("ansimagenta"@.subrange(0, 4) =~= "ansi"@ && "ansimagenta"@.skip(4) =~= "magenta"@);
    assert("ansiblack"@.subrange(0, 4) =~= "ansi"@ && "ansiblack"@.skip(4) =~= "black"@);
    assert("ansiwhite"@.subrange(0, 4) =~= "ansi"@ && "ansiwhite"@.skip(4) =~= "white"@);
}

/// The names of the palette that begin with `light`, behind `ansi`, are read
/// as its eight light colors.
pub proof fn lemma_light_palette_names_are_read()
    ensures
        color_of_lowercase("ansilightred"@) == Some(Color::LightRed),
        color_of_lowercase("ansilightgreen"@) == Some(Color::LightGreen),
        color_of_lowercase("ansilightblue"@) == Some(Color::LightBlue),
        color_of_lowercase("ansilightyellow"@) == Some(Color::LightYellow),
        color_of_lowercase("ansilightcyan"@) == Some(Color::LightCyan),
        color_of_lowercase("ansilightmagenta"@) == Some(Color::LightMagenta),
        color_of_lowercase("ansilightblack"@) == Some(Color::LightBlack),
        color_of_lowercase("ansilightwhite"@) == Some(Color::LightWhite),
{
    reveal_strlit("ansi");
    reveal_strlit("red");
    reveal_strlit("green");
    reveal_strlit("blue");
    reveal_strlit("yellow");
    reveal_strlit("cyan");
    reveal_strlit("magenta");
    reveal_strlit("black");
    reveal_strlit("white");
    reveal_strlit("lightred");
    reveal_strlit("lightgreen");
    reveal_strlit("lightblue");
    reveal_strlit("lightyellow");
    reveal_strlit("lightcyan");
    reveal_strlit("lightmagenta");
    reveal_strlit("lightblack");
    reveal_strlit("lightwhite");
    reveal_strlit("ansilightred");
    reveal_strlit("ansilightgreen");
    reveal_strlit("ansilightblue");
    reveal_strlit("ansilightyellow");
    reveal_strlit("ansilightcyan");
    reveal_strlit("ansilightmagenta");
    reveal_strlit("ansilightblack");
    reveal_strlit("ansilightwhite");
    assert("lightcyan"@[5] != "lightblue"@[5]);
    assert("lightblack"@[5] != "lightgreen"@[5]);
    assert("lightwhite"@[5] != "lightgreen"@[5] && "lightwhite"@[5] != "lightblack"@[5]);
    assert("ansilightred"@.subrange(0, 4) =~= "ansi"@ && "ansilightred"@.skip(4) =~= "lightred"@);
    assert("ansilightgreen"@.subrange(0, 4) =~= "ansi"@ && "ansilightgreen"@.skip(4)
        =~= "lightgreen"@);
    assert("ansilightblue"@.subrange(0, 4) =~= "ansi"@ && "ansilightblue"@.skip(4)
        =~= "lightblue"@);
    assert("ansilightyellow"@.subrange(0, 4) =~= "ansi"@ && "ansilightyellow"@.skip(4)
        =~= "lightyellow"@);
    assert("ansilightcyan"@.subrange(0, 4) =~= "ansi"@ && "ansilightcyan"@.skip(4)
        =~= "lightcyan"@);
    assert("ansilightmagenta"@.subrange(0, 4) =~= "ansi"@ && "ansilightmagenta"@.skip(4)
        =~= "lightmagenta"@);
    assert("ansilightblack"@.subrange(0, 4) =~= "ansi"@ && "ansilightblack"@.skip(4)
        =~= "lightblack"@);
    assert("ansilightwhite"@.subrange(0, 4) =~= "ansi"@ && "ansilightwhite"@.skip(4)
        =~= "lightwhite"@);
}

} // verus!
