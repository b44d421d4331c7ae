use proctmux::color::{color_from_lowercase, Color};
use proctmux::repr::color_from_config_string;
use proctmux::error::Error;

#[test]
fn every_palette_name_is_read() {
    let names = [
        ("ansired", Color::Red),
        ("ansigreen", Color::Green),
        ("ansiblue", Color::Blue),
        ("ansiyellow", Color::Yellow),
        ("ansicyan", Color::Cyan),
        ("ansimagenta", Color::Magenta),
        ("ansiblack", Color::Black),
        ("ansiwhite", Color::White),
        ("ansilightred", Color::LightRed),
        ("ansilightgreen", Color::LightGreen),
        ("ansilightblue", Color::LightBlue),
        ("ansilightyellow", Color::LightYellow),
        ("ansilightcyan", Color::LightCyan),
        ("ansilightmagenta", Color::LightMagenta),
        ("ansilightblack", Color::LightBlack),
        ("ansilightwhite", Color::LightWhite),
    ];
    for (name, color) in names {
        assert_eq!(color_from_config_string(name), Ok(color));
        assert_eq!(color_from_config_string(name), color_from_config_string(name));
    }
}

#[test]
fn color_names_ignore_case() {
    assert_eq!(color_from_config_string("ANSIRed"), Ok(Color::Red));
    assert_eq!(color_from_config_string("AnsiLightMagenta"), Ok(Color::LightMagenta));
}

#[test]
fn triples_are_read_as_rgb() {
    assert_eq!(color_from_config_string("1,2,3"), Ok(Color::Rgb(1, 2, 3)));
    assert_eq!(color_from_config_string("0,0,0"), Ok(Color::Rgb(0, 0, 0)));
    assert_eq!(color_from_config_string("255,255,255"), Ok(Color::Rgb(255, 255, 255)));
    assert_eq!(color_from_config_string("+1,002,30"), Ok(Color::Rgb(1, 2, 30)));
    for (r, g, b) in [(0u8, 128u8, 255u8), (17, 34, 51), (200, 100, 0)] {
        let text = format!("{},{},{}", r, g, b);
        assert_eq!(color_from_config_string(&text), Ok(Color::Rgb(r, g, b)));
    }
}

#[test]
fn other_strings_are_no_colors() {
    let unknown = Err(Error::Config("Unknown color".to_string()));
    for s in [
        "", "red", "purple", "ansi", "ansipurple", "ansiansired", "ansi red", "256,0,0", "1,2",
        "1,2,3,4", "1, 2, 3", "1,2,", ",,", "a,b,c", "-1,2,3", "1;2;3",
    ] {
        assert_eq!(color_from_config_string(s), unknown);
    }
}

#[test]
fn lowercase_reader_does_not_change_case() {
    let upper: Vec<char> = "ANSIRED".chars().collect();
    assert_eq!(color_from_lowercase(&upper), None);
    let lower: Vec<char> = "ansired".chars().collect();
    assert_eq!(color_from_lowercase(&lower), Some(Color::Red));
}
