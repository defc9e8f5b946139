//! Schedule and theme-switching logic of an automatic light/dark theme switcher.
//!
//! The theme follows either two fixed clock times or the sunrise and sunset at a location.
//! `scheduler` decides when and to what to switch, `theme` how the switch is written, and
//! `timetext` reads and writes the `HH:MM` clock times of the settings, `clock` reads the
//! calendar and the local time zone, and `autostart` builds the login entry.
use vstd::prelude::*;

pub mod autostart;
pub mod clock;
pub mod config;
pub mod scheduler;
pub mod theme;

pub mod timetext;

use crate::timetext::str_equals;

verus! {

/// The light/dark state of the system and app themes.
#[derive(Clone, Copy, Debug, PartialEq, Eq, Structural)]
pub struct ThemeState {
    /// Both themes are light.
    pub is_light: bool,
    pub apps_light: bool,
    pub system_light: bool,
}

/// Today's sunrise and sunset and the next switch, as `"HH:MM"` local times.
#[derive(Debug)]
pub struct SunTimes {
    pub sunrise: String,
    pub sunset: String,
    pub next_switch: String,
    /// The next switch turns the theme dark.
    pub next_switch_is_dark: bool,
}

impl Clone for SunTimes {
    fn clone(&self) -> (r: Self)
        ensures
            r == *self,
    {
        SunTimes {
            sunrise: self.sunrise.clone(),
            sunset: self.sunset.clone(),
            next_switch: self.next_switch.clone(),
            next_switch_is_dark: self.next_switch_is_dark,
        }
    }
}

/// The characters of a `SunTimes`.
pub struct SunTimesView {
    pub sunrise: Seq<char>,
    pub sunset: Seq<char>,
    pub next_switch: Seq<char>,
    pub next_switch_is_dark: bool,
}

impl View for SunTimes {
    type V = SunTimesView;

    open spec fn view(&self) -> SunTimesView {
        SunTimesView {
            sunrise: self.sunrise@,
            sunset: self.sunset@,
            next_switch: self.next_switch@,
            next_switch_is_dark: self.next_switch_is_dark,
        }
    }
}

/// The tray menu's labels ("show", "quit") for a UI language: Chinese for `"zh"`, English
/// otherwise.
pub fn tray_menu_labels(lang: &str) -> (r: (String, String))
    ensures
        lang@ == "zh"@ ==> r.0@ == "显示"@ && r.1@ == "退出"@,
        lang@ != "zh"@ ==> r.0@ == "Show"@ && r.1@ == "Quit"@,
{
    if str_equals(lang, "zh") {
        ("显示".to_owned(), "退出".to_owned())
    } else {
        ("Show".to_owned(), "Quit".to_owned())
    }
}

} // verus!
