//! Reading the options that scripts pass to commands by name.

use vstd::prelude::*;
use vstd::string::StringExecFns;

use crate::image_transform::{AlignX, AlignY, Scaling};
use crate::rlens::Mode;
use crate::status_bar::StatusBarPosition;
use crate::util::{str_eq, StrError};

verus! {

/// The message `prefix`, then `s` in backquotes.
pub open spec fn quoted(prefix: Seq<char>, s: Seq<char>) -> Seq<char> {
    prefix + s + "`"@
}

fn quoted_message(prefix: &str, s: &str) -> (r: StrError)
    ensures
        r.0@ == quoted(prefix@, s@),
{
    let mut message = String::from_str(prefix);
    message.append(s);
    message.append("`");
    StrError(message)
}

/// The mode with the given name.
pub open spec fn mode_named(s: Seq<char>) -> Option<Mode> {
    if s == "image"@ {
        Some(Mode::Image)
    } else if s == "gallery"@ {
        Some(Mode::Gallery)
    } else {
        None
    }
}

/// The scaling with the given name.
pub open spec fn scaling_named(s: Seq<char>) -> Option<Scaling> {
    if s == "none"@ {
        Some(Scaling::NoScaling)
    } else if s == "fit_width"@ {
        Some(Scaling::FitWidth)
    } else if s == "fit_height"@ {
        Some(Scaling::FitHeight)
    } else if s == "fit"@ {
        Some(Scaling::FitImage)
    } else {
        None
    }
}

/// The horizontal placement with the given name.
pub open spec fn align_x_named(s: Seq<char>) -> Option<AlignX> {
    if s == "left"@ {
        Some(AlignX::Left)
    } else if s == "center"@ {
        Some(AlignX::Center)
    } else if s == "right"@ {
        Some(AlignX::Right)
    } else {
        None
    }
}

/// The vertical placement with the given name.
pub open spec fn align_y_named(s: Seq<char>) -> Option<AlignY> {
    if s == "top"@ {
        Some(AlignY::Top)
    } else if s == "center"@ {
        Some(AlignY::Center)
    } else if s == "bottom"@ {
        Some(AlignY::Bottom)
    } else {
        None
    }
}

/// The status bar position with the given name.
pub open spec fn position_named(s: Seq<char>) -> Option<StatusBarPosition> {
    if s == "top"@ {
        Some(StatusBarPosition::Top)
    } else if s == "bottom"@ {
        Some(StatusBarPosition::Bottom)
    } else {
        None
    }
}

impl Mode {
    /// The mode named `s`: "image" or "gallery".
    pub fn parse(s: &str) -> (r: Result<Mode, StrError>)
        ensures
            mode_named(s@) matches Some(m) ==> r matches Ok(x) && x == m,
            mode_named(s@) is None ==> (r matches Err(e) && e.0@ == "Invalid mode"@),
    {
        if str_eq(s, "image") {
            Ok(Mode::Image)
        } else if str_eq(s, "gallery") {
            Ok(Mode::Gallery)
        } else {
            Err(StrError(String::from_str("Invalid mode")))
        }
    }

    /// The name of the mode.
    pub fn name(&self) -> (r: &'static str)
        ensures
            r@ == match *self {
                Mode::Image => "image"@,
                Mode::Gallery => "gallery"@,
            },
    {
        match self {
            Mode::Image => "image",
            Mode::Gallery => "gallery",
        }
    }
}

impl Scaling {
    /// The scaling named `s`: "none", "fit_width", "fit_height" or "fit".
    pub fn parse(s: &str) -> (r: Result<Scaling, StrError>)
        ensures
            scaling_named(s@) matches Some(m) ==> r matches Ok(x) && x == m,
            scaling_named(s@) is None ==> (r matches Err(e) && e.0@ == quoted("Invalid scaling `"@, s@)),
    {
        if str_eq(s, "none") {
            Ok(Scaling::NoScaling)
        } else if str_eq(s, "fit_width") {
            Ok(Scaling::FitWidth)
        } else if str_eq(s, "fit_height") {
            Ok(Scaling::FitHeight)
        } else if str_eq(s, "fit") {
            Ok(Scaling::FitImage)
        } else {
            Err(quoted_message("Invalid scaling `", s))
        }
    }
}

impl AlignX {
    /// The placement named `s`: "left", "center" or "right".
    pub fn parse(s: &str) -> (r: Result<AlignX, StrError>)
        ensures
            align_x_named(s@) matches Some(m) ==> r matches Ok(x) && x == m,
            align_x_named(s@) is None ==> (r matches Err(e) && e.0@ == quoted("Invalid X align `"@, s@)),
    {
        if str_eq(s, "left") {
            Ok(AlignX::Left)
        } else if str_eq(s, "center") {
            Ok(AlignX::Center)
        } else if str_eq(s, "right") {
            Ok(AlignX::Right)
        } else {
            Err(quoted_message("Invalid X align `", s))
        }
    }
}

impl AlignY {
    /// The placement named `s`: "top", "center" or "bottom".
    pub fn parse(s: &str) -> (r: Result<AlignY, StrError>)
        ensures
            align_y_named(s@) matches Some(m) ==> r matches Ok(x) && x == m,
            align_y_named(s@) is None ==> (r matches Err(e) && e.0@ == quoted("Invalid Y align `"@, s@)),
    {
        if str_eq(s, "top") {
            Ok(AlignY::Top)
        } else if str_eq(s, "center") {
            Ok(AlignY::Center)
        } else if str_eq(s, "bottom") {
            Ok(AlignY::Bottom)
        } else {
            Err(quoted_message("Invalid Y align `", s))
        }
    }
}

impl StatusBarPosition {
    /// The position named `s`: "top" or "bottom".
    pub fn parse(s: &str) -> (r: Result<StatusBarPosition, StrError>)
        ensures
            position_named(s@) matches Some(m) ==> r matches Ok(x) && x == m,
            position_named(s@) is None ==> (r matches Err(e) && e.0@ == quoted("Invalid position `"@, s@)),
    {
        if str_eq(s, "top") {
            Ok(StatusBarPosition::Top)
        } else if str_eq(s, "bottom") {
            Ok(StatusBarPosition::Bottom)
        } else {
            Err(quoted_message("Invalid position `", s))
        }
    }
}

impl std::str::FromStr for Mode {
    type Err = StrError;

    fn from_str(s: &str) -> Result<Self, StrError> {
        Mode::parse(s)
    }
}

impl std::str::FromStr for Scaling {
    type Err = StrError;

    fn from_str(s: &str) -> Result<Self, StrError> {
        Scaling::parse(s)
    }
}

impl std::str::FromStr for AlignX {
    type Err = StrError;

    fn from_str(s: &str) -> Result<Self, StrError> {
        AlignX::parse(s)
    }
}

impl std::str::FromStr for AlignY {
    type Err = StrError;

    fn from_str(s: &str) -> Result<Self, StrError> {
        AlignY::parse(s)
    }
}

impl std::str::FromStr for StatusBarPosition {
    type Err = StrError;

    fn from_str(s: &str) -> Result<Self, StrError> {
        StatusBarPosition::parse(s)
    }
}

} // verus!
