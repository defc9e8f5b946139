use auto_dark_mode::config::{
    default_language, default_sunrise, default_sunset, AppConfig, LocationConfig, ScheduleMode,
    DEFAULT_LAT_BITS, DEFAULT_LON_BITS,
};
use auto_dark_mode::timetext::parse_time;
use auto_dark_mode::tray_menu_labels;

#[test]
fn default_config_values() {
    let c = AppConfig::default();
    assert!(c.enabled);
    assert_eq!(c.mode, ScheduleMode::Fixed);
    assert_eq!(c.sunrise_time, "07:00");
    assert_eq!(c.sunset_time, "19:00");
    assert!(!c.location.enabled);
    assert!(c.switch_system);
    assert!(c.switch_apps);
    assert!(!c.autostart);
    assert!(c.show_tray);
    assert!(c.notify_on_switch);
    assert_eq!(c.language, "en");
    assert_eq!(c.manual_override_until, None);
}

#[test]
fn default_location_is_beijing() {
    let l = LocationConfig::default();
    assert!(!l.enabled);
    assert_eq!(f64::from_bits(l.lat_bits), 39.9042);
    assert_eq!(f64::from_bits(l.lon_bits), 116.4074);
    assert_eq!(DEFAULT_LAT_BITS, 39.9042f64.to_bits());
    assert_eq!(DEFAULT_LON_BITS, 116.4074f64.to_bits());
}

#[test]
fn default_strings() {
    assert_eq!(default_language(), "en");
    assert_eq!(default_sunrise(), "07:00");
    assert_eq!(default_sunset(), "19:00");
    assert_eq!(ScheduleMode::default(), ScheduleMode::Fixed);
}

#[test]
fn default_times_parse() {
    assert_eq!(parse_time(&default_sunrise()), Some(25200));
    assert_eq!(parse_time(&default_sunset()), Some(68400));
}

#[test]
fn tray_labels_by_language() {
    assert_eq!(tray_menu_labels("zh"), ("显示".to_string(), "退出".to_string()));
    assert_eq!(tray_menu_labels("en"), ("Show".to_string(), "Quit".to_string()));
    assert_eq!(tray_menu_labels(""), ("Show".to_string(), "Quit".to_string()));
    assert_eq!(tray_menu_labels("ZH"), ("Show".to_string(), "Quit".to_string()));
    assert_eq!(tray_menu_labels("zh-CN"), ("Show".to_string(), "Quit".to_string()));
}
