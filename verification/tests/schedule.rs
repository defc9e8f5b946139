use std::time::{SystemTime, UNIX_EPOCH};

use auto_dark_mode::config::{AppConfig, ScheduleMode};
use auto_dark_mode::scheduler::{
    compute_sun_times, fixed_boundary_at, get_next_boundary_timestamp, get_next_switch_time,
    config_after_reload, location_boundary_at, manual_override, next_switch_at, with_override, scheduled_theme, scheduled_theme_at, should_be_light_at,
    should_be_light_now, sun_times_at, SunCalculation, SunEvents,
};
use auto_dark_mode::SunTimes;

const MAX_TS: i64 = 8210266876799;
const MIN_TS: i64 = -8334601228800;

fn fixed(sunrise: &str, sunset: &str) -> AppConfig {
    let mut c = AppConfig::default();
    c.sunrise_time = sunrise.to_string();
    c.sunset_time = sunset.to_string();
    c
}

fn location(enabled: bool) -> AppConfig {
    let mut c = AppConfig::default();
    c.mode = ScheduleMode::Location;
    c.location.enabled = enabled;
    c
}

fn calc(today: Result<SunEvents, String>, tomorrow: Result<SunEvents, String>) -> SunCalculation {
    SunCalculation { today, tomorrow }
}

fn no_sun() -> SunCalculation {
    calc(Err("none".to_string()), Err("none".to_string()))
}

fn now_ts() -> i64 {
    SystemTime::now().duration_since(UNIX_EPOCH).unwrap().as_secs() as i64
}

#[test]
fn fixed_day_period() {
    let c = fixed("07:00", "19:00");
    assert_eq!(should_be_light_at(&c, 0, None), Some(false));
    assert_eq!(should_be_light_at(&c, 25199, None), Some(false));
    assert_eq!(should_be_light_at(&c, 25200, None), Some(true));
    assert_eq!(should_be_light_at(&c, 68399, None), Some(true));
    assert_eq!(should_be_light_at(&c, 68400, None), Some(false));
}

#[test]
fn fixed_period_over_midnight() {
    let c = fixed("22:00", "06:00");
    assert_eq!(should_be_light_at(&c, 79200, None), Some(true));
    assert_eq!(should_be_light_at(&c, 3600, None), Some(true));
    assert_eq!(should_be_light_at(&c, 21600, None), Some(false));
    assert_eq!(should_be_light_at(&c, 43200, None), Some(false));
    // the swapped times call it dark exactly then
    let swapped = fixed("06:00", "22:00");
    for t in [0u32, 3600, 21599, 21600, 43200, 79199, 79200, 86399] {
        assert_eq!(
            should_be_light_at(&c, t, None),
            should_be_light_at(&swapped, t, None).map(|b| !b)
        );
    }
}

#[test]
fn fixed_equal_times_never_light() {
    let c = fixed("12:00", "12:00");
    for t in [0u32, 43199, 43200, 43201, 86399] {
        assert_eq!(should_be_light_at(&c, t, None), Some(false));
    }
}

#[test]
fn fixed_unparsable_time() {
    assert_eq!(should_be_light_at(&fixed("7", "19:00"), 30000, None), None);
    assert_eq!(should_be_light_at(&fixed("07:00", "25:00"), 30000, None), None);
}

#[test]
fn location_period() {
    let c = location(true);
    assert_eq!(should_be_light_at(&c, 30000, Some((25000, 70000))), Some(true));
    assert_eq!(should_be_light_at(&c, 70000, Some((25000, 70000))), Some(false));
    assert_eq!(should_be_light_at(&c, 100, Some((25000, 70000))), Some(false));
    // sunset before sunrise in local time: never light
    assert_eq!(should_be_light_at(&c, 30000, Some((70000, 25000))), Some(false));
    assert_eq!(should_be_light_at(&c, 30000, None), None);
    assert_eq!(should_be_light_at(&location(false), 30000, Some((25000, 70000))), None);
}

#[test]
fn scheduler_decision() {
    let mut c = fixed("07:00", "19:00");
    assert_eq!(scheduled_theme_at(&c, 1000, Some(true)), Some(true));
    assert_eq!(scheduled_theme_at(&c, 1000, None), None);
    c.manual_override_until = Some(2000);
    assert_eq!(scheduled_theme_at(&c, 1999, Some(true)), None);
    assert_eq!(scheduled_theme_at(&c, 2000, Some(false)), Some(false));
    c.enabled = false;
    assert_eq!(scheduled_theme_at(&c, 5000, Some(true)), None);
}

#[test]
fn scheduler_now() {
    // equal times: never light, whatever the clock says
    let c = fixed("00:00", "00:00");
    assert_eq!(should_be_light_now(&c, &no_sun()), Some(false));
    assert_eq!(scheduled_theme(&c, &no_sun()), Some(false));
    let mut held = c.clone();
    held.manual_override_until = Some(i64::MAX);
    assert_eq!(scheduled_theme(&held, &no_sun()), None);
    let mut past = c.clone();
    past.manual_override_until = Some(0);
    assert_eq!(scheduled_theme(&past, &no_sun()), Some(false));
    let mut off = c.clone();
    off.enabled = false;
    assert_eq!(scheduled_theme(&off, &no_sun()), None);
    assert_eq!(should_be_light_now(&fixed("x", "00:00"), &no_sun()), None);
    assert_eq!(should_be_light_now(&location(false), &no_sun()), None);
    assert_eq!(should_be_light_now(&location(true), &no_sun()), None);
    let out_of_range = calc(Ok(SunEvents { rise: MAX_TS + 1, set: 0 }), Err("x".to_string()));
    assert_eq!(should_be_light_now(&location(true), &out_of_range), None);
}

fn ev(rise: i64, set: i64) -> Result<SunEvents, String> {
    Ok(SunEvents { rise, set })
}

fn times(sunrise: &str, sunset: &str, next: &str, dark: bool) -> (String, String, String, bool) {
    (sunrise.to_string(), sunset.to_string(), next.to_string(), dark)
}

fn flat(r: Result<SunTimes, String>) -> Result<(String, String, String, bool), String> {
    r.map(|s| (s.sunrise, s.sunset, s.next_switch, s.next_switch_is_dark))
}

#[test]
fn sun_times_branches() {
    let t = ev(0, 0);
    let tm = ev(0, 0);
    assert_eq!(
        flat(sun_times_at(1000, &t, Some(25200), Some(68400), &tm, Some(25260))),
        Ok(times("07:00", "19:00", "07:00", false))
    );
    assert_eq!(
        flat(sun_times_at(30000, &t, Some(25200), Some(68400), &tm, Some(25260))),
        Ok(times("07:00", "19:00", "19:00", true))
    );
    assert_eq!(
        flat(sun_times_at(70000, &t, Some(25200), Some(68400), &tm, Some(25260))),
        Ok(times("07:00", "19:00", "07:01", false))
    );
}

#[test]
fn sun_times_errors() {
    let t = ev(0, 0);
    let bad: Result<SunEvents, String> = Err("Latitude out of range".to_string());
    assert_eq!(
        flat(sun_times_at(1000, &bad, Some(1), Some(2), &t, Some(3))),
        Err("Latitude out of range".to_string())
    );
    assert_eq!(
        flat(sun_times_at(1000, &t, None, Some(2), &t, Some(3))),
        Err("invalid sunrise timestamp".to_string())
    );
    assert_eq!(
        flat(sun_times_at(1000, &t, Some(1), None, &t, Some(3))),
        Err("invalid sunset timestamp".to_string())
    );
    assert_eq!(
        flat(sun_times_at(70000, &t, Some(25200), Some(68400), &bad, Some(3))),
        Err("Latitude out of range".to_string())
    );
    assert_eq!(
        flat(sun_times_at(70000, &t, Some(25200), Some(68400), &t, None)),
        Err("invalid timestamp".to_string())
    );
    // tomorrow is not consulted before sunset
    assert_eq!(
        flat(sun_times_at(30000, &t, Some(25200), Some(68400), &bad, None)),
        Ok(times("07:00", "19:00", "19:00", true))
    );
}

#[test]
fn compute_sun_times_modes_and_errors() {
    assert!(matches!(compute_sun_times(&fixed("07:00", "19:00"), &no_sun()), Ok(None)));
    assert!(matches!(compute_sun_times(&location(false), &no_sun()), Ok(None)));
    let c = location(true);
    let r = compute_sun_times(&c, &calc(Err("Latitude out of range".to_string()), ev(0, 0)));
    assert_eq!(r.err(), Some("Latitude out of range".to_string()));
    let r = compute_sun_times(&c, &calc(ev(MAX_TS + 1, 0), ev(0, 0)));
    assert_eq!(r.err(), Some("invalid sunrise timestamp".to_string()));
    let r = compute_sun_times(&c, &calc(ev(MIN_TS, MIN_TS - 1), ev(0, 0)));
    assert_eq!(r.err(), Some("invalid sunset timestamp".to_string()));
}

#[test]
fn compute_sun_times_same_rise_and_set() {
    // With sunrise == sunset the next switch is that time (before it) or tomorrow's sunrise.
    let c = location(true);
    let r = compute_sun_times(&c, &calc(ev(1_700_000_000, 1_700_000_000), Err("tomorrow".to_string())));
    match r {
        Ok(Some(st)) => {
            assert_eq!(st.sunrise, st.sunset);
            assert_eq!(st.next_switch, st.sunrise);
            assert!(!st.next_switch_is_dark);
            assert_eq!(st.sunrise.len(), 5);
        }
        Ok(None) => panic!("location schedule gave no sun times"),
        Err(e) => assert_eq!(e, "tomorrow"),
    }
}

#[test]
fn next_switch_fixed() {
    let c = fixed("07:00", "19:00");
    assert_eq!(next_switch_at(&c, 0, None), Ok(Some(("07:00".to_string(), false))));
    assert_eq!(next_switch_at(&c, 25200, None), Ok(Some(("19:00".to_string(), true))));
    assert_eq!(next_switch_at(&c, 68400, None), Ok(Some(("07:00".to_string(), false))));
    // unparsable times fall back to 07:00 and 19:00
    let bad = fixed("late", "");
    assert_eq!(next_switch_at(&bad, 30000, None), Ok(Some(("19:00".to_string(), true))));
    assert_eq!(next_switch_at(&bad, 80000, None), Ok(Some(("07:00".to_string(), false))));
}

#[test]
fn next_switch_flips_current_theme() {
    for c in [fixed("06:30", "18:45"), fixed("19:00", "07:00"), fixed("12:00", "12:00"), fixed("23:59", "00:00")] {
        for t in (0u32..86400).step_by(900) {
            let light = should_be_light_at(&c, t, None).unwrap();
            let (_, dark) = next_switch_at(&c, t, None).unwrap().unwrap();
            assert_eq!(dark, light);
        }
    }
}

#[test]
fn next_switch_over_midnight() {
    let c = fixed("19:00", "07:00");
    assert_eq!(next_switch_at(&c, 5 * 3600, None), Ok(Some(("07:00".to_string(), true))));
    assert_eq!(next_switch_at(&c, 8 * 3600, None), Ok(Some(("19:00".to_string(), false))));
    assert_eq!(next_switch_at(&c, 20 * 3600, None), Ok(Some(("07:00".to_string(), true))));
}

#[test]
fn theme_at_announced_switch_is_announced() {
    for c in [fixed("06:30", "18:45"), fixed("19:00", "07:00")] {
        for t in (0u32..86400).step_by(600) {
            let (text, dark) = next_switch_at(&c, t, None).unwrap().unwrap();
            let at = auto_dark_mode::timetext::parse_time(&text).unwrap();
            assert_eq!(should_be_light_at(&c, at, None), Some(!dark));
        }
    }
}

#[test]
fn next_switch_location() {
    let st = SunTimes {
        sunrise: "06:00".to_string(),
        sunset: "18:00".to_string(),
        next_switch: "18:00".to_string(),
        next_switch_is_dark: true,
    };
    assert_eq!(next_switch_at(&location(true), 100, Some(st.clone())), Ok(Some(("18:00".to_string(), true))));
    assert_eq!(next_switch_at(&location(true), 100, None), Ok(None));
    assert_eq!(next_switch_at(&location(false), 100, Some(st)), Ok(None));
}

#[test]
fn next_switch_now() {
    let r = get_next_switch_time(&AppConfig::default(), &no_sun()).unwrap().unwrap();
    assert!(r == ("07:00".to_string(), false) || r == ("19:00".to_string(), true));
    assert_eq!(get_next_switch_time(&location(false), &no_sun()), Ok(None));
    assert_eq!(get_next_switch_time(&location(true), &no_sun()), Ok(None));
}

#[test]
fn fixed_boundary() {
    assert_eq!(fixed_boundary_at(100, Some(200), Some(300), Some(1200)), Some(200));
    assert_eq!(fixed_boundary_at(200, Some(200), Some(300), Some(1200)), Some(300));
    assert_eq!(fixed_boundary_at(300, Some(200), Some(300), Some(1200)), Some(1200));
    assert_eq!(fixed_boundary_at(300, Some(200), Some(300), None), None);
    assert_eq!(fixed_boundary_at(100, None, Some(300), Some(1200)), None);
    assert_eq!(fixed_boundary_at(100, Some(200), None, Some(1200)), None);
    // sunset before sunrise (light over midnight): the next of the two comes first
    assert_eq!(fixed_boundary_at(100, Some(300), Some(200), Some(1200)), Some(200));
    assert_eq!(fixed_boundary_at(250, Some(300), Some(200), Some(1200)), Some(300));
    assert_eq!(fixed_boundary_at(300, Some(300), Some(200), Some(1200)), Some(1200));
}

#[test]
fn overnight_boundary_example() {
    // light from 19:00 to 07:00, at 05:00 on 2024-01-01 (UTC): the next switch is 07:00
    let day = 1_704_067_200i64;
    let now = day + 5 * 3600;
    let sunrise = Some(day + 19 * 3600);
    let sunset = Some(day + 7 * 3600);
    assert_eq!(fixed_boundary_at(now, sunrise, sunset, Some(day + 86_400 + 7 * 3600)), Some(1_704_092_400));
    assert_eq!(fixed_boundary_at(day + 8 * 3600, sunrise, sunset, None), sunrise);
    assert_eq!(fixed_boundary_at(day + 20 * 3600, sunrise, sunset, Some(day + 86_400 + 7 * 3600)), Some(day + 86_400 + 7 * 3600));
}

#[test]
fn location_boundary() {
    let tomorrow = ev(90_000, 130_000);
    assert_eq!(location_boundary_at(100, &ev(1000, 5000), &tomorrow), Some(1000));
    assert_eq!(location_boundary_at(1000, &ev(1000, 5000), &tomorrow), Some(5000));
    assert_eq!(location_boundary_at(5000, &ev(1000, 5000), &tomorrow), Some(90_000));
    assert_eq!(location_boundary_at(5000, &ev(1000, 5000), &Err("x".to_string())), None);
    assert_eq!(location_boundary_at(100, &Err("x".to_string()), &tomorrow), None);
    assert_eq!(location_boundary_at(100, &ev(MAX_TS + 1, 5000), &tomorrow), None);
    assert_eq!(location_boundary_at(100, &ev(1000, MIN_TS - 1), &tomorrow), None);
    assert_eq!(location_boundary_at(100, &ev(MAX_TS, MIN_TS), &tomorrow), Some(MAX_TS));
    assert_eq!(location_boundary_at(5000, &ev(1000, 5000), &ev(MAX_TS + 1, 0)), None);
}

#[test]
fn boundary_now_location() {
    let far = 7_258_118_400; // year 2200
    let c = location(true);
    assert_eq!(get_next_boundary_timestamp(&c, &calc(ev(far, far + 40_000), ev(0, 0))), Some(far));
    assert_eq!(get_next_boundary_timestamp(&c, &calc(ev(0, far), ev(0, 0))), Some(far));
    assert_eq!(
        get_next_boundary_timestamp(&c, &calc(ev(0, 3600), ev(far + 86_400, 0))),
        Some(far + 86_400)
    );
    assert_eq!(get_next_boundary_timestamp(&c, &no_sun()), None);
}

#[test]
fn boundary_now_fixed() {
    assert_eq!(get_next_boundary_timestamp(&fixed("7", "19:00"), &no_sun()), None);
    assert_eq!(get_next_boundary_timestamp(&fixed("07:00", "19:99"), &no_sun()), None);
    let now = now_ts();
    for config in [fixed("07:00", "19:00"), fixed("00:00", "23:59"), fixed("00:00", "00:01"), fixed("00:01", "00:00"), fixed("19:00", "07:00"), location(false)] {
        let t = get_next_boundary_timestamp(&config, &no_sun()).expect("a local switch time");
        assert!(t > now - 120, "boundary {} before now {}", t, now);
        assert!(t < now + 3 * 86_400, "boundary {} too far after now {}", t, now);
    }
}

#[test]
fn manual_switch_holds_until_boundary() {
    let far = 7_258_118_400; // year 2200
    let c = location(true);
    let sun = calc(ev(far, far + 40_000), ev(0, 0));
    assert!(manual_override(&c, &sun, Some(false)).is_none());
    let held = manual_override(&c, &sun, Some(true)).unwrap();
    assert_eq!(held.manual_override_until, Some(far));
    assert_eq!(held.mode, c.mode);
    assert_eq!(held.sunrise_time, c.sunrise_time);
    let held = manual_override(&c, &sun, None).unwrap();
    assert_eq!(held.manual_override_until, Some(far));
    // held off until the boundary, then the schedule applies again
    assert_eq!(scheduled_theme_at(&held, far - 1, Some(true)), None);
    assert_eq!(scheduled_theme_at(&held, far, Some(true)), Some(true));
    assert!(manual_override(&fixed("x", "19:00"), &no_sun(), None).is_none());
}

#[test]
fn override_from_boundary() {
    let c = fixed("07:00", "19:00");
    assert!(with_override(&c, Some(false), Some(500)).is_none());
    assert!(with_override(&c, Some(true), None).is_none());
    let held = with_override(&c, None, Some(500)).unwrap();
    assert_eq!(held.manual_override_until, Some(500));
    assert_eq!(held.sunrise_time, "07:00");
    assert_eq!(held.mode, ScheduleMode::Fixed);
    assert_eq!(with_override(&c, Some(true), Some(7)).unwrap().manual_override_until, Some(7));
}

#[test]
fn reload_keeps_last_config_on_failure() {
    let current = fixed("07:00", "19:00");
    let loaded = fixed("06:00", "20:00");
    assert_eq!(config_after_reload(current.clone(), Some(loaded)).sunrise_time, "06:00");
    assert_eq!(config_after_reload(current, None).sunrise_time, "07:00");
}

#[test]
fn disabled_location_boundary_matches_fixed() {
    let mut loc = location(false);
    loc.sunrise_time = "19:00".to_string();
    loc.sunset_time = "07:00".to_string();
    let fixed_cfg = fixed("19:00", "07:00");
    let a = get_next_boundary_timestamp(&loc, &no_sun());
    let b = get_next_boundary_timestamp(&fixed_cfg, &no_sun());
    assert!(a.is_some());
    assert_eq!(a.is_some(), b.is_some());
}

#[test]
fn scheduled_theme_respects_far_override() {
    let mut c = fixed("00:00", "00:00");
    c.manual_override_until = Some(MAX_TS + 1);
    assert_eq!(scheduled_theme(&c, &no_sun()), None);
    c.manual_override_until = Some(i64::MIN);
    assert_eq!(scheduled_theme(&c, &no_sun()), Some(false));
}
