use rlens::command::{
    first, gallery_vertical_move, goto, last, next, next_wrapping, prev, prev_wrapping,
    validate_position,
};
use rlens::hooks::{ExternalHook, Hooks};
use rlens::image_transform::{Align, AlignX, AlignY, Scaling};
use rlens::input::{split_modifiers, strip_modifier, Modifiers};
use rlens::lua::ConfigFlag;
use rlens::rlens::Mode;
use rlens::status_bar::StatusBarPosition;
use rlens::util::{find_char, str_eq, StrError};

#[test]
fn positions() {
    assert_eq!(validate_position(0, 3), None);
    assert_eq!(validate_position(1, 3), Some(0));
    assert_eq!(validate_position(3, 3), Some(2));
    assert_eq!(validate_position(4, 3), None);
    assert_eq!(goto(2, 0, 3), Ok(Some(1)));
    assert_eq!(goto(1, 0, 3), Ok(None));
    assert_eq!(goto(9, 0, 3), Err(9));
}

#[test]
fn stepping() {
    assert_eq!(next(0, 3), Some(1));
    assert_eq!(next(2, 3), None);
    assert_eq!(next_wrapping(2, 3), Some(0));
    assert_eq!(next_wrapping(0, 1), None);
    assert_eq!(prev(0), None);
    assert_eq!(prev(2), Some(1));
    assert_eq!(prev_wrapping(0, 3), Some(2));
    assert_eq!(prev_wrapping(0, 1), None);
    assert_eq!(first(0), None);
    assert_eq!(first(2), Some(0));
    assert_eq!(last(2, 3), None);
    assert_eq!(last(0, 3), Some(2));
}

#[test]
fn vertical_moves() {
    assert_eq!(gallery_vertical_move(true, 1, 4, 10), Some(5));
    assert_eq!(gallery_vertical_move(true, 7, 4, 10), None);
    assert_eq!(gallery_vertical_move(false, 5, 4, 10), Some(1));
    assert_eq!(gallery_vertical_move(false, 3, 4, 10), None);
}

#[test]
fn option_names() {
    assert_eq!(Mode::parse("image").ok(), Some(Mode::Image));
    assert_eq!(Mode::parse("gallery").ok(), Some(Mode::Gallery));
    assert_eq!(Mode::parse("grid").err().map(|e| e.0), Some("Invalid mode".to_string()));
    assert_eq!(Mode::Gallery.name(), "gallery");
    assert_eq!("fit".parse::<Scaling>().ok(), Some(Scaling::FitImage));
    assert_eq!(Scaling::parse("none").ok(), Some(Scaling::NoScaling));
    assert_eq!(Scaling::parse("fit_width").ok(), Some(Scaling::FitWidth));
    assert_eq!(Scaling::parse("fit_height").ok(), Some(Scaling::FitHeight));
    assert_eq!(Scaling::parse("big").err().map(|e| e.message()), Some("Invalid scaling `big`".to_string()));
    assert_eq!(AlignX::parse("center").ok(), Some(AlignX::Center));
    assert_eq!(AlignX::parse("top").err().map(|e| e.0), Some("Invalid X align `top`".to_string()));
    assert_eq!(AlignY::parse("bottom").ok(), Some(AlignY::Bottom));
    assert_eq!(AlignY::parse("left").err().map(|e| e.0), Some("Invalid Y align `left`".to_string()));
    assert_eq!(StatusBarPosition::parse("top").ok(), Some(StatusBarPosition::Top));
    assert_eq!(StatusBarPosition::parse("side").err().map(|e| e.0), Some("Invalid position `side`".to_string()));
}

#[test]
fn defaults() {
    assert_eq!(Mode::default(), Mode::Image);
    assert_eq!(Scaling::default(), Scaling::NoScaling);
    assert_eq!(Align::default(), Align { x: AlignX::Left, y: AlignY::Top });
    assert_eq!(StatusBarPosition::default(), StatusBarPosition::Bottom);
}

#[test]
fn config_flags() {
    let f = ConfigFlag::parse("theme:  dark");
    assert_eq!(f.name, "theme");
    assert_eq!(f.val.as_deref(), Some("dark"));
    let f: ConfigFlag = "debug".parse().unwrap();
    assert_eq!(f.name, "debug");
    assert_eq!(f.val, None);
    let f = ConfigFlag::parse("a:b:c");
    assert_eq!((f.name.as_str(), f.val.as_deref()), ("a", Some("b:c")));
    let f = ConfigFlag::parse("x:");
    assert_eq!((f.name.as_str(), f.val.as_deref()), ("x", Some("")));
}

#[test]
fn key_modifiers() {
    let mut s = "C-f";
    assert!(strip_modifier(&mut s, "C"));
    assert_eq!(s, "f");
    let mut s = "Cf";
    assert!(!strip_modifier(&mut s, "C"));
    assert_eq!(s, "Cf");
    let mut s = "C";
    assert!(!strip_modifier(&mut s, "C"));
    let (m, rest) = split_modifiers("S-C-A-L-x");
    assert_eq!(m, Modifiers { shift: true, ctrl: true, alt: true, logo: true });
    assert_eq!(rest, "x");
    let (m, rest) = split_modifiers("C-S-x");
    assert_eq!(m, Modifiers { shift: false, ctrl: true, alt: false, logo: false });
    assert_eq!(rest, "S-x");
    let (m, rest) = split_modifiers("-");
    assert_eq!(m, Modifiers { shift: false, ctrl: false, alt: false, logo: false });
    assert_eq!(rest, "-");
}

#[test]
fn hooks_in_order() {
    let mut h = Hooks::default();
    assert!(h.names().is_empty());
    h.transform_update();
    assert_eq!(h.names(), vec!["transform_update"]);
    h.current_image_change();
    assert_eq!(h.names(), vec!["current_image_change", "transform_update"]);
    assert_eq!(ExternalHook::CurrentImageLoad.name(), "current_image_load");
    assert_eq!(ExternalHook::WindowResize.name(), "resize");
}

#[test]
fn string_helpers() {
    assert!(str_eq("abc", "abc"));
    assert!(!str_eq("abc", "abd"));
    assert!(!str_eq("ab", "abc"));
    assert_eq!(find_char("a:b:c", ':'), Some(1));
    assert_eq!(find_char("abc", ':'), None);
    assert_eq!(StrError("m".to_string()).message(), "m");
}
