//! The settings that drive the schedule.
use vstd::prelude::*;

verus! {

/// How the switch times are chosen.
#[derive(Clone, Copy, Debug, PartialEq, Eq, Structural)]
pub enum ScheduleMode {
    /// Fixed time (`sunrise_time` / `sunset_time`).
    Fixed,
    /// Sunrise and sunset at a location (latitude / longitude).
    Location,
}

impl Default for ScheduleMode {
    fn default() -> (r: Self)
        ensures
            r == ScheduleMode::Fixed,
    {
        ScheduleMode::Fixed
    }
}

/// Where the sun is observed. The coordinates are kept as the IEEE-754 bit patterns of
/// the degrees (`f64::to_bits`); only the sun calculation reads them.
#[derive(Clone, Copy, Debug, PartialEq, Eq, Structural)]
pub struct LocationConfig {
    pub enabled: bool,
    /// Latitude (N) in degrees, as `f64` bits.
    pub lat_bits: u64,
    /// Longitude (E) in degrees, as `f64` bits.
    pub lon_bits: u64,
}

/// `39.9042_f64.to_bits()`: the default latitude (Beijing).
pub const DEFAULT_LAT_BITS: u64 = 4630812834192328072;

/// `116.4074_f64.to_bits()`: the default longitude (Beijing).
pub const DEFAULT_LON_BITS: u64 = 4637891859487856892;

impl Default for LocationConfig {
    fn default() -> (r: Self)
        ensures
            !r.enabled,
            r.lat_bits == DEFAULT_LAT_BITS,
            r.lon_bits == DEFAULT_LON_BITS,
    {
        LocationConfig { enabled: false, lat_bits: DEFAULT_LAT_BITS, lon_bits: DEFAULT_LON_BITS }
    }
}

/// The application's settings.
#[derive(Debug)]
pub struct AppConfig {
    /// Whether the scheduler switches the theme at all.
    pub enabled: bool,
    pub mode: ScheduleMode,
    /// Start of the light period in fixed mode, `"HH:MM"`.
    pub sunrise_time: String,
    /// Start of the dark period in fixed mode, `"HH:MM"`.
    pub sunset_time: String,
    pub location: LocationConfig,
    /// Switch the system theme (taskbar, window borders).
    pub switch_system: bool,
    /// Switch the app theme.
    pub switch_apps: bool,
    pub autostart: bool,
    pub show_tray: bool,
    pub notify_on_switch: bool,
    /// UI language: `"en"` or `"zh"`.
    pub language: String,
    /// If set, the scheduler does not switch before this Unix timestamp. Set when the user
    /// switches the theme by hand.
    pub manual_override_until: Option<i64>,
}

impl Clone for AppConfig {
    fn clone(&self) -> (r: Self)
        ensures
            r == *self,
    {
        AppConfig {
            enabled: self.enabled,
            mode: self.mode,
            sunrise_time: self.sunrise_time.clone(),
            sunset_time: self.sunset_time.clone(),
            location: self.location,
            switch_system: self.switch_system,
            switch_apps: self.switch_apps,
            autostart: self.autostart,
            show_tray: self.show_tray,
            notify_on_switch: self.notify_on_switch,
            language: self.language.clone(),
            manual_override_until: self.manual_override_until,
        }
    }
}

/// The default UI language.
pub fn default_language() -> (r: String)
    ensures
        r@ == "en"@,
{
    "en".to_owned()
}

/// The default start of the light period.
pub fn default_sunrise() -> (r: String)
    ensures
        r@ == "07:00"@,
{
    "07:00".to_owned()
}

/// The default start of the dark period.
pub fn default_sunset() -> (r: String)
    ensures
        r@ == "19:00"@,
{
    "19:00".to_owned()
}

impl Default for AppConfig {
    fn default() -> (r: Self)
        ensures
            r.enabled,
            r.mode == ScheduleMode::Fixed,
            r.sunrise_time@ == "07:00"@,
            r.sunset_time@ == "19:00"@,
            !r.location.enabled,
            r.location.lat_bits == DEFAULT_LAT_BITS,
            r.location.lon_bits == DEFAULT_LON_BITS,
            r.switch_system,
            r.switch_apps,
            !r.autostart,
            r.show_tray,
            r.notify_on_switch,
            r.language@ == "en"@,
            r.manual_override_until is None,
    {
        AppConfig {
            enabled: true,
            mode: ScheduleMode::Fixed,
            sunrise_time: default_sunrise(),
            sunset_time: default_sunset(),
            location: LocationConfig::default(),
            switch_system: true,
            switch_apps: true,
            autostart: false,
            show_tray: true,
            notify_on_switch: true,
            language: default_language(),
            manual_override_until: None,
        }
    }
}

} // verus!
