//! When to switch, and to which theme.
//!
//! Each decision is a function of plain values (`*_at`), with an exact contract; the
//! functions without that suffix read the clock and the local time zone, then decide.
use vstd::prelude::*;

use crate::clock::{
    clock_time_of_day, lemma_every_time_of_day_is_local, local_now, local_reading_ok,
    local_seconds, local_time_of, local_timestamp_at, naive_timestamp, next_day,
    timestamp_in_range, LocalInstant,
};
use crate::config::{AppConfig, ScheduleMode};
use crate::timetext::{format_hhmm, hhmm_text, parse_time, parse_time_spec, two_digits};
use crate::{SunTimes, SunTimesView};

verus! {

/// One run of the sunrise/sunset calculator: the closest sunrise and sunset around an
/// instant, as Unix timestamps.
#[derive(Clone, Copy, Debug, PartialEq, Eq, Structural)]
pub struct SunEvents {
    pub rise: i64,
    pub set: i64,
}

/// The calculator's answers for the configured location: around the current instant, and
/// around the same instant one day later. An error holds the calculator's message.
#[derive(Debug)]
pub struct SunCalculation {
    pub today: Result<SunEvents, String>,
    pub tomorrow: Result<SunEvents, String>,
}

// ---------------------------------------------------------------------------
// Whether it should be light now
// ---------------------------------------------------------------------------

/// The schedule follows the sun.
pub open spec fn location_active(c: AppConfig) -> bool {
    c.mode == ScheduleMode::Location && c.location.enabled
}

/// Light from `sunrise` until `sunset`; when `sunrise` is after `sunset` the light period
/// runs over midnight.
pub open spec fn light_between(sunrise: int, sunset: int, now: int) -> bool {
    if sunrise <= sunset {
        sunrise <= now && now < sunset
    } else {
        sunrise <= now || now < sunset
    }
}

/// Whether the theme should be light at local time of day `now`, given the local times of
/// day of today's sunrise and sunset (`None` when they could not be computed). `None` when
/// the schedule cannot tell.
pub open spec fn should_be_light_spec(c: AppConfig, now: int, today_local: Option<(u32, u32)>) -> Option<
    bool,
> {
    match c.mode {
        ScheduleMode::Fixed => match (
            parse_time_spec(c.sunrise_time@),
            parse_time_spec(c.sunset_time@),
        ) {
            (Some(sr), Some(ss)) => Some(light_between(sr as int, ss as int, now)),
            _ => None,
        },
        ScheduleMode::Location => if c.location.enabled {
            match today_local {
                Some(p) => Some(p.0 <= now && now < p.1),
                None => None,
            }
        } else {
            None
        },
    }
}

pub fn should_be_light_at(config: &AppConfig, now: u32, today_local: Option<(u32, u32)>) -> (r:
    Option<bool>)
    ensures
        r == should_be_light_spec(*config, now as int, today_local),
{
    match config.mode {
        ScheduleMode::Fixed => {
            let sunrise = match parse_time(config.sunrise_time.as_str()) {
                Some(t) => t,
                None => {
                    return None;
                },
            };
            let sunset = match parse_time(config.sunset_time.as_str()) {
                Some(t) => t,
                None => {
                    return None;
                },
            };
            if sunrise <= sunset {
                Some(now >= sunrise && now < sunset)
            } else {
                Some(now >= sunrise || now < sunset)
            }
        },
        ScheduleMode::Location => {
            if !config.location.enabled {
                return None;
            }
            match today_local {
                Some((rise, set)) => Some(now >= rise && now < set),
                None => None,
            }
        },
    }
}

/// `local` holds the local times of day of the sunrise and sunset of `events`, as the clock
/// module can read them: present exactly when both timestamps are within chrono's range.
pub open spec fn local_pair_ok(events: Result<SunEvents, String>, local: Option<(u32, u32)>) -> bool {
    match events {
        Err(_) => local is None,
        Ok(ev) => {
            &&& (local is Some <==> (timestamp_in_range(ev.rise as int) && timestamp_in_range(
                ev.set as int,
            )))
            &&& (local matches Some(p) ==> p.0 < 86400 && p.1 < 86400)
            &&& (local matches Some(p) ==> local_time_of(ev.rise, p.0) && local_time_of(
                ev.set,
                p.1,
            ))
        },
    }
}

/// A local pair that meets `local_pair_ok`.
pub open spec fn some_local_pair(events: Result<SunEvents, String>) -> Option<(u32, u32)> {
    match events {
        Err(_) => None,
        Ok(ev) => if timestamp_in_range(ev.rise as int) && timestamp_in_range(ev.set as int) {
            Some((0u32, 0u32))
        } else {
            None
        },
    }
}

proof fn lemma_some_local_pair(events: Result<SunEvents, String>)
    ensures
        local_pair_ok(events, some_local_pair(events)),
{
    if let Ok(ev) = events {
        if timestamp_in_range(ev.rise as int) && timestamp_in_range(ev.set as int) {
            lemma_every_time_of_day_is_local(ev.rise, 0);
            lemma_every_time_of_day_is_local(ev.set, 0);
        }
    }
}

/// The local times of day of a calculation's sunrise and sunset.
fn local_pair(events: &Result<SunEvents, String>) -> (r: Option<(u32, u32)>)
    ensures
        local_pair_ok(*events, r),
{
    match events {
        Err(_) => None,
        Ok(ev) => {
            let rise = local_seconds(ev.rise);
            let set = local_seconds(ev.set);
            match (rise, set) {
                (Some(a), Some(b)) => Some((a, b)),
                _ => None,
            }
        },
    }
}

/// `r` is what `should_be_light_spec` gives at local time of day `now`, with the local sun
/// times `local` as read from `sun.today`; none when the clock cannot be read (`now` is
/// `None`).
pub open spec fn light_reading(
    c: AppConfig,
    sun: SunCalculation,
    now: Option<u32>,
    local: Option<(u32, u32)>,
    r: Option<bool>,
) -> bool {
    match now {
        None => r is None,
        Some(t) => {
            &&& t < 86400
            &&& clock_time_of_day(t)
            &&& local_pair_ok(sun.today, local)
            &&& r == should_be_light_spec(c, t as int, local)
        },
    }
}

/// `r` is an answer that `should_be_light_now` can give for some reading of the clock.
pub open spec fn light_possible(c: AppConfig, sun: SunCalculation, r: Option<bool>) -> bool {
    exists|now: Option<u32>, local: Option<(u32, u32)>| #[trigger] light_reading(
        c,
        sun,
        now,
        local,
        r,
    )
}

/// Whether the theme should be light now. The answer is `should_be_light_spec` at the local
/// time of day of the clock, with today's sun times read in the local time zone; none when
/// the clock cannot be read.
pub fn should_be_light_now(config: &AppConfig, sun: &SunCalculation) -> (r: Option<bool>)
    ensures
        light_possible(*config, *sun, r),
{
    let now = match local_now() {
        Some(n) => n,
        None => {
            assert(light_reading(*config, *sun, None, None, None));
            return None;
        },
    };
    let local = if config.mode == ScheduleMode::Location && config.location.enabled {
        local_pair(&sun.today)
    } else {
        None
    };
    let r = should_be_light_at(config, now.seconds, local);
    proof {
        assert(local_reading_ok(now.timestamp, now));
        if location_active(*config) {
            assert(light_reading(*config, *sun, Some(now.seconds), local, r));
        } else {
            let w = some_local_pair(sun.today);
            lemma_some_local_pair(sun.today);
            assert(light_reading(*config, *sun, Some(now.seconds), w, r));
        }
    }
    r
}

// ---------------------------------------------------------------------------
// Whether the scheduler switches
// ---------------------------------------------------------------------------

/// A manual switch holds the schedule off until `manual_override_until`.
pub open spec fn overridden(c: AppConfig, now_ts: int) -> bool {
    c.manual_override_until matches Some(until) && now_ts < until
}

/// The theme the scheduler applies at instant `now_ts` (`Some(true)` for light): none when
/// it is disabled, held off by a manual switch, or the schedule cannot tell.
pub open spec fn scheduled_theme_spec(c: AppConfig, now_ts: int, should_light: Option<bool>) -> Option<
    bool,
> {
    if !c.enabled || overridden(c, now_ts) {
        None
    } else {
        should_light
    }
}

pub fn scheduled_theme_at(config: &AppConfig, now_ts: i64, should_light: Option<bool>) -> (r:
    Option<bool>)
    ensures
        r == scheduled_theme_spec(*config, now_ts as int, should_light),
{
    if !config.enabled {
        return None;
    }
    if let Some(until) = config.manual_override_until {
        if now_ts < until {
            return None;
        }
    }
    should_light
}

/// `r` is what `scheduled_theme_spec` gives for one reading `now` of the local clock, with
/// the local sun times `local` as read from `sun.today`; none when the clock cannot be read.
pub open spec fn scheduled_reading(
    c: AppConfig,
    sun: SunCalculation,
    now: Option<LocalInstant>,
    local: Option<(u32, u32)>,
    r: Option<bool>,
) -> bool {
    match now {
        None => r is None,
        Some(n) => {
            &&& local_reading_ok(n.timestamp, n)
            &&& timestamp_in_range(n.timestamp as int)
            &&& local_pair_ok(sun.today, local)
            &&& r == scheduled_theme_spec(
                c,
                n.timestamp as int,
                should_be_light_spec(c, n.seconds as int, local),
            )
        },
    }
}

/// The theme the scheduler applies now: `scheduled_theme_spec` for one reading of the local
/// clock, so none while the scheduler is disabled or the clock is before
/// `manual_override_until`, and otherwise whether it should be light at that reading; none
/// when the clock cannot be read.
pub fn scheduled_theme(config: &AppConfig, sun: &SunCalculation) -> (r: Option<bool>)
    ensures
        exists|now: Option<LocalInstant>, local: Option<(u32, u32)>|
            #[trigger] scheduled_reading(*config, *sun, now, local, r),
        !config.enabled ==> r is None,
        r is Some ==> light_possible(*config, *sun, r),
        config.manual_override_until matches Some(until) && until > 8210266876799 ==> r is None,
{
    let now = match local_now() {
        Some(n) => n,
        None => {
            assert(scheduled_reading(*config, *sun, None, None, None));
            return None;
        },
    };
    let local = if config.mode == ScheduleMode::Location && config.location.enabled {
        local_pair(&sun.today)
    } else {
        None
    };
    let should = should_be_light_at(config, now.seconds, local);
    let r = scheduled_theme_at(config, now.timestamp, should);
    proof {
        lemma_some_local_pair(sun.today);
        assert(local_reading_ok(now.timestamp, now));
        let w = if location_active(*config) {
            local
        } else {
            some_local_pair(sun.today)
        };
        assert(should == should_be_light_spec(*config, now.seconds as int, w));
        assert(scheduled_reading(*config, *sun, Some(now), w, r));
        if r is Some {
            assert(light_reading(*config, *sun, Some(now.seconds), w, r));
        }
    }
    r
}

// ---------------------------------------------------------------------------
// Sun times
// ---------------------------------------------------------------------------

/// Today's sun times and the next switch at local time of day `now`, given the local times
/// of day of the calculation's sunrise (`rise`), sunset (`set`) and tomorrow's sunrise
/// (`tomorrow_rise`), each `None` when its timestamp is out of chrono's range. Before the
/// sunrise the next switch is that sunrise, to light; before the sunset it is the sunset,
/// to dark; after both it is tomorrow's sunrise.
pub open spec fn sun_times_spec(
    now: int,
    today: Result<SunEvents, String>,
    rise: Option<u32>,
    set: Option<u32>,
    tomorrow: Result<SunEvents, String>,
    tomorrow_rise: Option<u32>,
) -> Result<SunTimesView, Seq<char>> {
    match today {
        Err(e) => Err(e@),
        Ok(_) => match rise {
            None => Err("invalid sunrise timestamp"@),
            Some(r) => match set {
                None => Err("invalid sunset timestamp"@),
                Some(s) => {
                    let next: Result<(int, bool), Seq<char>> = if now < r {
                        Ok((r as int, false))
                    } else if now < s {
                        Ok((s as int, true))
                    } else {
                        match tomorrow {
                            Err(e) => Err(e@),
                            Ok(_) => match tomorrow_rise {
                                None => Err("invalid timestamp"@),
                                Some(t) => Ok((t as int, false)),
                            },
                        }
                    };
                    match next {
                        Err(e) => Err(e),
                        Ok(n) => Ok(
                            SunTimesView {
                                sunrise: hhmm_text(r as int),
                                sunset: hhmm_text(s as int),
                                next_switch: hhmm_text(n.0),
                                next_switch_is_dark: n.1,
                            },
                        ),
                    }
                },
            },
        },
    }
}

/// `r` is the outcome `s` written as a `Result` of strings.
pub open spec fn sun_times_result_is(r: Result<SunTimes, String>, s: Result<SunTimesView, Seq<char>>) -> bool {
    match r {
        Ok(st) => s == Ok::<SunTimesView, Seq<char>>(st@),
        Err(e) => s == Err::<SunTimesView, Seq<char>>(e@),
    }
}

pub fn sun_times_at(
    now: u32,
    today: &Result<SunEvents, String>,
    rise: Option<u32>,
    set: Option<u32>,
    tomorrow: &Result<SunEvents, String>,
    tomorrow_rise: Option<u32>,
) -> (r: Result<SunTimes, String>)
    requires
        rise matches Some(t) ==> t < 86400,
        set matches Some(t) ==> t < 86400,
        tomorrow_rise matches Some(t) ==> t < 86400,
    ensures
        sun_times_result_is(
            r,
            sun_times_spec(now as int, *today, rise, set, *tomorrow, tomorrow_rise),
        ),
{
    if let Err(e) = today {
        return Err(e.clone());
    }
    let r = match rise {
        Some(r) => r,
        None => {
            return Err("invalid sunrise timestamp".to_owned());
        },
    };
    let s = match set {
        Some(s) => s,
        None => {
            return Err("invalid sunset timestamp".to_owned());
        },
    };
    let (next, dark) = if now < r {
        (r, false)
    } else if now < s {
        (s, true)
    } else {
        if let Err(e) = tomorrow {
            return Err(e.clone());
        }
        match tomorrow_rise {
            Some(t) => (t, false),
            None => {
                return Err("invalid timestamp".to_owned());
            },
        }
    };
    Ok(
        SunTimes {
            sunrise: format_hhmm(r),
            sunset: format_hhmm(s),
            next_switch: format_hhmm(next),
            next_switch_is_dark: dark,
        },
    )
}

/// The local times of day read from `sun` meet the clock module's contract.
pub open spec fn sun_reading_ok(
    sun: SunCalculation,
    now: u32,
    rise: Option<u32>,
    set: Option<u32>,
    tomorrow_rise: Option<u32>,
) -> bool {
    &&& now < 86400
    &&& clock_time_of_day(now)
    &&& rise matches Some(t) ==> t < 86400
    &&& set matches Some(t) ==> t < 86400
    &&& tomorrow_rise matches Some(t) ==> t < 86400
    &&& sun.today matches Ok(ev) ==> {
        &&& (rise is Some <==> timestamp_in_range(ev.rise as int))
        &&& (set is Some <==> timestamp_in_range(ev.set as int))
        &&& (rise matches Some(t) ==> local_time_of(ev.rise, t))
        &&& (set matches Some(t) ==> local_time_of(ev.set, t))
    }
    &&& sun.tomorrow matches Ok(ev) ==> {
        &&& (tomorrow_rise is Some <==> timestamp_in_range(ev.rise as int))
        &&& (tomorrow_rise matches Some(t) ==> local_time_of(ev.rise, t))
    }
}

/// `r` is what `sun_times_spec` gives for one reading of the clock and time zone.
pub open spec fn sun_times_reading(
    sun: SunCalculation,
    now: u32,
    rise: Option<u32>,
    set: Option<u32>,
    tomorrow_rise: Option<u32>,
    r: Result<SunTimes, String>,
) -> bool {
    &&& sun_reading_ok(sun, now, rise, set, tomorrow_rise)
    &&& sun_times_result_is(r, sun_times_spec(now as int, sun.today, rise, set, sun.tomorrow, tomorrow_rise))
}

/// `r` is a result that `compute_sun_times` can give for a location schedule.
pub open spec fn sun_times_possible(sun: SunCalculation, r: Result<SunTimes, String>) -> bool {
    exists|now: u32, rise: Option<u32>, set: Option<u32>, tomorrow_rise: Option<u32>|
        #[trigger] sun_times_reading(sun, now, rise, set, tomorrow_rise, r)
}

fn local_rise(events: &Result<SunEvents, String>) -> (r: Option<u32>)
    ensures
        r matches Some(t) ==> t < 86400,
        events matches Ok(ev) ==> (r is Some <==> timestamp_in_range(ev.rise as int)),
        events matches Ok(ev) ==> (r matches Some(t) ==> local_time_of(ev.rise, t)),
{
    match events {
        Ok(ev) => local_seconds(ev.rise),
        Err(_) => None,
    }
}

/// The error reported when the system clock cannot be read (it reads before 1970).
pub open spec fn clock_error_text() -> Seq<char> {
    "the system clock cannot be read"@
}

fn clock_error() -> (r: String)
    ensures
        r@ == clock_error_text(),
{
    "the system clock cannot be read".to_owned()
}

/// Today's sunrise, sunset and next switch, when the schedule follows the sun: `Ok(None)`
/// in any other mode; else the outcome of `sun_times_spec` for the clock's local time of
/// day and the local times of the calculation's events, or the clock error when the clock
/// cannot be read.
pub fn compute_sun_times(config: &AppConfig, sun: &SunCalculation) -> (r: Result<
    Option<SunTimes>,
    String,
>)
    ensures
        !location_active(*config) ==> r == Ok::<Option<SunTimes>, String>(None),
        location_active(*config) ==> match r {
            Ok(Some(st)) => sun_times_possible(*sun, Ok(st)),
            Ok(None) => false,
            Err(e) => sun_times_possible(*sun, Err(e)) || e@ == clock_error_text(),
        },
{
    if !(config.mode == ScheduleMode::Location && config.location.enabled) {
        return Ok(None);
    }
    let now = match local_now() {
        Some(n) => n,
        None => {
            return Err(clock_error());
        },
    };
    let (rise, set) = match &sun.today {
        Ok(ev) => (local_seconds(ev.rise), local_seconds(ev.set)),
        Err(_) => (None, None),
    };
    let tomorrow_rise = local_rise(&sun.tomorrow);
    let r = sun_times_at(now.seconds, &sun.today, rise, set, &sun.tomorrow, tomorrow_rise);
    assert(sun_times_reading(*sun, now.seconds, rise, set, tomorrow_rise, r));
    match r {
        Ok(st) => Ok(Some(st)),
        Err(e) => Err(e),
    }
}

// ---------------------------------------------------------------------------
// The next switch
// ---------------------------------------------------------------------------

/// The default switch times used when the fixed times do not parse: 07:00 and 19:00.
pub open spec fn fixed_or(t: Option<u32>, default: int) -> int {
    match t {
        Some(v) => v as int,
        None => default,
    }
}

/// The time of day (seconds after midnight) of the next fixed-time switch after local time
/// of day `now`, and whether it turns the theme dark: the next of the two switch times that
/// comes after `now`, and past both the earlier of them, which comes next on the following
/// day. The light period runs from the sunrise to the sunset time, over midnight when the
/// sunrise is later.
pub open spec fn next_fixed_switch_point(c: AppConfig, now: int) -> (int, bool) {
    let sr = fixed_or(parse_time_spec(c.sunrise_time@), 25200);
    let ss = fixed_or(parse_time_spec(c.sunset_time@), 68400);
    if sr <= ss {
        if now < sr {
            (sr, false)
        } else if now < ss {
            (ss, true)
        } else {
            (sr, false)
        }
    } else {
        if now < ss {
            (ss, true)
        } else if now < sr {
            (sr, false)
        } else {
            (ss, true)
        }
    }
}

/// The next fixed-time switch at local time of day `now` as `"HH:MM"`, and whether it turns
/// the theme dark.
pub open spec fn next_fixed_switch_spec(c: AppConfig, now: int) -> (Seq<char>, bool) {
    let p = next_fixed_switch_point(c, now);
    (hhmm_text(p.0), p.1)
}

/// The next switch as `get_next_switch_time` reports it, given the sun times computed for
/// a location schedule (`None` when they could not be computed).
pub open spec fn next_switch_spec(c: AppConfig, now: int, location_times: Option<SunTimesView>) -> Option<
    (Seq<char>, bool),
> {
    match c.mode {
        ScheduleMode::Fixed => Some(next_fixed_switch_spec(c, now)),
        ScheduleMode::Location => if c.location.enabled {
            match location_times {
                Some(st) => Some((st.next_switch, st.next_switch_is_dark)),
                None => None,
            }
        } else {
            None
        },
    }
}

pub open spec fn times_view(t: Option<SunTimes>) -> Option<SunTimesView> {
    match t {
        Some(st) => Some(st@),
        None => None,
    }
}

pub open spec fn switch_view(r: Option<(String, bool)>) -> Option<(Seq<char>, bool)> {
    match r {
        Some(p) => Some((p.0@, p.1)),
        None => None,
    }
}

pub fn next_switch_at(config: &AppConfig, now: u32, location_times: Option<SunTimes>) -> (r: Result<
    Option<(String, bool)>,
    String,
>)
    requires
        now < 86400,
    ensures
        r matches Ok(o) && switch_view(o) == next_switch_spec(
            *config,
            now as int,
            times_view(location_times),
        ),
{
    match config.mode {
        ScheduleMode::Fixed => {
            let sunrise = match parse_time(config.sunrise_time.as_str()) {
                Some(t) => t,
                None => 25200,
            };
            let sunset = match parse_time(config.sunset_time.as_str()) {
                Some(t) => t,
                None => 68400,
            };
            let (next, dark) = if sunrise <= sunset {
                if now < sunrise {
                    (sunrise, false)
                } else if now < sunset {
                    (sunset, true)
                } else {
                    (sunrise, false)
                }
            } else {
                if now < sunset {
                    (sunset, true)
                } else if now < sunrise {
                    (sunrise, false)
                } else {
                    (sunset, true)
                }
            };
            Ok(Some((format_hhmm(next), dark)))
        },
        ScheduleMode::Location => {
            if !config.location.enabled {
                return Ok(None);
            }
            match location_times {
                Some(st) => Ok(Some((st.next_switch, st.next_switch_is_dark))),
                None => Ok(None),
            }
        },
    }
}

/// The next switch time (`"HH:MM"`) and whether it turns the theme dark. In fixed mode it is
/// `next_fixed_switch_spec` at the clock's local time of day (the clock error when the clock
/// cannot be read); following the sun it is the next switch of `compute_sun_times`, or none
/// when that fails; otherwise none.
pub fn get_next_switch_time(config: &AppConfig, sun: &SunCalculation) -> (r: Result<
    Option<(String, bool)>,
    String,
>)
    ensures
        config.mode == ScheduleMode::Fixed ==> (r matches Err(e) ==> e@ == clock_error_text()),
        config.mode == ScheduleMode::Fixed ==> (r is Ok ==> exists|now: u32|
            now < 86400 && clock_time_of_day(now) && (r matches Ok(o) && switch_view(o) == Some(
                #[trigger] next_fixed_switch_spec(*config, now as int),
            ))),
        config.mode == ScheduleMode::Location && !config.location.enabled ==> r matches Ok(None),
        location_active(*config) ==> r is Ok,
        location_active(*config) && sun.today is Err ==> r matches Ok(None),
        location_active(*config) ==> (r matches Ok(Some(p)) ==> exists|st: SunTimes|
            #[trigger] sun_times_possible(*sun, Ok(st)) && st.next_switch@ == p.0@
                && st.next_switch_is_dark == p.1),
{
    if config.mode == ScheduleMode::Fixed {
        let now = match local_now() {
            Some(n) => n,
            None => {
                return Err(clock_error());
            },
        };
        let r = next_switch_at(config, now.seconds, None);
        assert(switch_view(r->Ok_0) == Some(next_fixed_switch_spec(*config, now.seconds as int)));
        return r;
    }
    let location_times = if config.location.enabled {
        match compute_sun_times(config, sun) {
            Ok(Some(st)) => Some(st),
            _ => None,
        }
    } else {
        None
    };
    let ghost times = location_times;
    let r = next_switch_at(config, 0, location_times);
    proof {
        if location_active(*config) && sun.today is Err {
            if let Some(st) = times {
                let (n, rs, ss, tr) = choose|n: u32, rs: Option<u32>, ss: Option<u32>, tr: Option<u32>|
                    #[trigger] sun_times_reading(*sun, n, rs, ss, tr, Ok(st));
                assert(sun_times_reading(*sun, n, rs, ss, tr, Ok(st)));
            }
        }
        if location_active(*config) {
            if times is Some {
                let st = times->Some_0;
                assert(sun_times_possible(*sun, Ok(st)));
            }
        }
    }
    r
}

// ---------------------------------------------------------------------------
// The next boundary (end of a manual override)
// ---------------------------------------------------------------------------

/// The time of day of the first switch of a day: the earlier of the two switch times.
pub open spec fn first_switch_secs(sunrise: int, sunset: int) -> int {
    if sunrise <= sunset {
        sunrise
    } else {
        sunset
    }
}

/// The next fixed-time boundary after instant `now_ts`: the earlier of today's two switch
/// instants (`sunrise_today`, `sunset_today`, local timestamps) that lies after `now_ts`, and
/// past both the first switch of tomorrow (`first_tomorrow`). `None` when a local time does not
/// exist.
pub open spec fn fixed_boundary_spec(
    now_ts: int,
    sunrise_today: Option<i64>,
    sunset_today: Option<i64>,
    first_tomorrow: Option<i64>,
) -> Option<i64> {
    match (sunrise_today, sunset_today) {
        (Some(a), Some(b)) => {
            let lo = if a <= b {
                a
            } else {
                b
            };
            let hi = if a <= b {
                b
            } else {
                a
            };
            if now_ts < lo {
                Some(lo)
            } else if now_ts < hi {
                Some(hi)
            } else {
                first_tomorrow
            }
        },
        _ => None,
    }
}

pub fn fixed_boundary_at(
    now_ts: i64,
    sunrise_today: Option<i64>,
    sunset_today: Option<i64>,
    first_tomorrow: Option<i64>,
) -> (r: Option<i64>)
    ensures
        r == fixed_boundary_spec(now_ts as int, sunrise_today, sunset_today, first_tomorrow),
        r matches Some(t) ==> t > now_ts || r == first_tomorrow,
{
    match (sunrise_today, sunset_today) {
        (Some(a), Some(b)) => {
            let (lo, hi) = if a <= b {
                (a, b)
            } else {
                (b, a)
            };
            if now_ts < lo {
                Some(lo)
            } else if now_ts < hi {
                Some(hi)
            } else {
                first_tomorrow
            }
        },
        _ => None,
    }
}

/// The next sunrise or sunset after instant `now_ts`: today's sunrise, else today's sunset,
/// else tomorrow's sunrise; none when a calculation failed or a timestamp is out of
/// chrono's range.
pub open spec fn location_boundary_spec(
    now_ts: int,
    today: Result<SunEvents, String>,
    tomorrow: Result<SunEvents, String>,
) -> Option<i64> {
    match today {
        Err(_) => None,
        Ok(ev) => if !timestamp_in_range(ev.rise as int) || !timestamp_in_range(ev.set as int) {
            None
        } else if now_ts < ev.rise {
            Some(ev.rise)
        } else if now_ts < ev.set {
            Some(ev.set)
        } else {
            match tomorrow {
                Err(_) => None,
                Ok(t) => if timestamp_in_range(t.rise as int) {
                    Some(t.rise)
                } else {
                    None
                },
            }
        },
    }
}

pub fn location_boundary_at(
    now_ts: i64,
    today: &Result<SunEvents, String>,
    tomorrow: &Result<SunEvents, String>,
) -> (r: Option<i64>)
    ensures
        r == location_boundary_spec(now_ts as int, *today, *tomorrow),
        r matches Some(t) ==> t > now_ts || (tomorrow matches Ok(ev) && t == ev.rise),
{
    let ev = match today {
        Ok(ev) => ev,
        Err(_) => {
            return None;
        },
    };
    if local_seconds(ev.rise).is_none() || local_seconds(
        ev.set,
    ).is_none() {
        return None;
    }
    if now_ts < ev.rise {
        Some(ev.rise)
    } else if now_ts < ev.set {
        Some(ev.set)
    } else {
        match tomorrow {
            Err(_) => None,
            Ok(t) => {
                if local_seconds(t.rise).is_some() {
                    Some(t.rise)
                } else {
                    None
                }
            },
        }
    }
}

/// `t`, when present, is a local timestamp of local date `date` at `secs` after midnight,
/// as the clock module reads it.
pub open spec fn local_time_ok(date: int, secs: int, t: Option<i64>) -> bool {
    t matches Some(v) ==> naive_timestamp(date, secs) - 86400 < v && v < naive_timestamp(
        date,
        secs,
    ) + 86400
}

/// The next natural boundary after the instant `now_ts`: following the sun,
/// `location_boundary_spec`; otherwise (fixed times, or a location schedule without a
/// location) `fixed_boundary_spec` for today's local switch instants `a` (sunrise) and `b`
/// (sunset) and tomorrow's first switch `t`, and none when a fixed time does not parse.
pub open spec fn next_boundary_spec(
    c: AppConfig,
    sun: SunCalculation,
    now_ts: int,
    a: Option<i64>,
    b: Option<i64>,
    t: Option<i64>,
) -> Option<i64> {
    if location_active(c) {
        location_boundary_spec(now_ts, sun.today, sun.tomorrow)
    } else {
        match (parse_time_spec(c.sunrise_time@), parse_time_spec(c.sunset_time@)) {
            (Some(_), Some(_)) => fixed_boundary_spec(now_ts, a, b, t),
            _ => None,
        }
    }
}

/// The local switch instants `a`, `b` and `t` are read, for the clock reading `now`, as the
/// clock module reads local times: today's sunrise and sunset, and tomorrow's first switch.
pub open spec fn boundary_reading_ok(
    c: AppConfig,
    now: LocalInstant,
    a: Option<i64>,
    b: Option<i64>,
    t: Option<i64>,
) -> bool {
    &&& local_reading_ok(now.timestamp, now)
    &&& match (parse_time_spec(c.sunrise_time@), parse_time_spec(c.sunset_time@)) {
        (Some(sr), Some(ss)) => {
            &&& local_time_ok(now.date as int, sr as int, a)
            &&& local_time_ok(now.date as int, ss as int, b)
            &&& local_time_ok(now.date + 1, first_switch_secs(sr as int, ss as int), t)
        },
        _ => true,
    }
}

/// `r` is what `next_boundary_spec` gives for one reading of the clock (`now`) and of the
/// time zone (`a`, `b`, `t`); none when the clock cannot be read.
pub open spec fn boundary_reading(
    c: AppConfig,
    sun: SunCalculation,
    now: Option<LocalInstant>,
    a: Option<i64>,
    b: Option<i64>,
    t: Option<i64>,
    r: Option<i64>,
) -> bool {
    match now {
        None => r is None,
        Some(n) => {
            &&& boundary_reading_ok(c, n, a, b, t)
            &&& r == next_boundary_spec(c, sun, n.timestamp as int, a, b, t)
        },
    }
}

/// `r` is a boundary that `get_next_boundary_timestamp` can give for some reading of the
/// clock and the time zone.
pub open spec fn boundary_possible(c: AppConfig, sun: SunCalculation, r: Option<i64>) -> bool {
    exists|now: Option<LocalInstant>, a: Option<i64>, b: Option<i64>, t: Option<i64>|
        #[trigger] boundary_reading(c, sun, now, a, b, t, r)
}

/// The instant of the schedule's next natural switch, used to hold a manual switch until
/// then: `next_boundary_spec` at the clock's instant, with today's and tomorrow's local
/// switch times read in the local time zone; none when the clock cannot be read.
pub fn get_next_boundary_timestamp(config: &AppConfig, sun: &SunCalculation) -> (r: Option<i64>)
    ensures
        boundary_possible(*config, *sun, r),
        !location_active(*config) && (parse_time_spec(config.sunrise_time@) is None
            || parse_time_spec(config.sunset_time@) is None) ==> r is None,
{
    let now = match local_now() {
        Some(n) => n,
        None => {
            assert(boundary_reading(*config, *sun, None, None, None, None, None));
            return None;
        },
    };
    if config.mode == ScheduleMode::Location && config.location.enabled {
        let r = location_boundary_at(now.timestamp, &sun.today, &sun.tomorrow);
        assert(boundary_reading(*config, *sun, Some(now), None, None, None, r));
        return r;
    }
    let sunrise = match parse_time(config.sunrise_time.as_str()) {
        Some(t) => t,
        None => {
            assert(boundary_reading(*config, *sun, Some(now), None, None, None, None));
            return None;
        },
    };
    let sunset = match parse_time(config.sunset_time.as_str()) {
        Some(t) => t,
        None => {
            assert(boundary_reading(*config, *sun, Some(now), None, None, None, None));
            return None;
        },
    };
    let a = local_timestamp_at(now.date, sunrise);
    if a.is_none() {
        assert(boundary_reading(*config, *sun, Some(now), a, None, None, None));
        return None;
    }
    let b = local_timestamp_at(now.date, sunset);
    if b.is_none() {
        assert(boundary_reading(*config, *sun, Some(now), a, b, None, None));
        return None;
    }
    let past_today = match (a, b) {
        (Some(x), Some(y)) => now.timestamp >= x && now.timestamp >= y,
        _ => false,
    };
    let first = if sunrise <= sunset {
        sunrise
    } else {
        sunset
    };
    let t = if past_today {
        match next_day(now.date) {
            Some(d) => local_timestamp_at(d, first),
            None => None,
        }
    } else {
        None
    };
    let r = fixed_boundary_at(now.timestamp, a, b, t);
    assert(boundary_reading(*config, *sun, Some(now), a, b, t, r));
    r
}

/// The settings after a switch, given the next natural boundary: a switch made by hand
/// (`is_manual`, taken as true when not given) holds the schedule off until `boundary`.
/// `None` when the switch was the scheduler's own or there is no boundary; then the
/// settings stay as they are.
pub open spec fn with_override_spec(c: AppConfig, is_manual: Option<bool>, boundary: Option<i64>) -> Option<
    AppConfig,
> {
    if is_manual == Some(false) {
        None
    } else {
        match boundary {
            Some(u) => Some(AppConfig { manual_override_until: Some(u), ..c }),
            None => None,
        }
    }
}

pub fn with_override(config: &AppConfig, is_manual: Option<bool>, boundary: Option<i64>) -> (r:
    Option<AppConfig>)
    ensures
        r == with_override_spec(*config, is_manual, boundary),
{
    let manual = match is_manual {
        Some(b) => b,
        None => true,
    };
    if !manual {
        return None;
    }
    match boundary {
        Some(until) => {
            let mut c = config.clone();
            c.manual_override_until = Some(until);
            Some(c)
        },
        None => None,
    }
}

/// The settings after a switch made from the UI: `with_override_spec` for the boundary that
/// `get_next_boundary_timestamp` gives now (read only for a manual switch).
pub fn manual_override(config: &AppConfig, sun: &SunCalculation, is_manual: Option<bool>) -> (r:
    Option<AppConfig>)
    ensures
        is_manual == Some(false) ==> r is None,
        is_manual != Some(false) ==> exists|b: Option<i64>|
            #[trigger] boundary_possible(*config, *sun, b) && r == with_override_spec(
                *config,
                is_manual,
                b,
            ),
{
    if is_manual == Some(false) {
        return None;
    }
    let b = get_next_boundary_timestamp(config, sun);
    with_override(config, is_manual, b)
}

/// The settings the scheduler runs with after reloading them: the loaded settings when the
/// file could be read, else the ones it had.
pub fn config_after_reload(current: AppConfig, loaded: Option<AppConfig>) -> (r: AppConfig)
    ensures
        r == (match loaded {
            Some(c) => c,
            None => current,
        }),
{
    match loaded {
        Some(c) => c,
        None => current,
    }
}

// ---------------------------------------------------------------------------
// Laws
// ---------------------------------------------------------------------------

/// Fixed times that cross midnight: when `sunrise` is after `sunset`, it is light exactly
/// when the swapped times would call it dark; equal times leave no light period.
pub proof fn lemma_overnight_is_complement(sunrise: int, sunset: int, now: int)
    ensures
        sunrise > sunset ==> light_between(sunrise, sunset, now) == !light_between(
            sunset,
            sunrise,
            now,
        ),
        sunrise == sunset ==> !light_between(sunrise, sunset, now),
{
}

/// With fixed times, the announced next switch always leads away from the current theme:
/// it turns the theme dark exactly when it is light now, also when the light period runs
/// over midnight.
pub proof fn lemma_fixed_next_switch_flips(c: AppConfig, now: int, local: Option<(u32, u32)>)
    requires
        c.mode == ScheduleMode::Fixed,
        parse_time_spec(c.sunrise_time@) is Some,
        parse_time_spec(c.sunset_time@) is Some,
    ensures
        should_be_light_spec(c, now, local) == Some(next_fixed_switch_spec(c, now).1),
{
}

/// With two different fixed times, the theme that the schedule gives at the announced next
/// switch time is the announced one: light at the sunrise, dark at the sunset, also when the
/// light period runs over midnight.
pub proof fn lemma_fixed_switch_point_theme(c: AppConfig, now: int, local: Option<(u32, u32)>)
    requires
        c.mode == ScheduleMode::Fixed,
        parse_time_spec(c.sunrise_time@) matches Some(sr) && parse_time_spec(c.sunset_time@) matches Some(ss) && sr != ss,
    ensures
        should_be_light_spec(c, next_fixed_switch_point(c, now).0, local) == Some(
            !next_fixed_switch_point(c, now).1,
        ),
{
}

/// Following the sun, the announced next switch always leads away from the current theme:
/// whenever the sun times are computed, their next switch turns the theme dark exactly when
/// it should be light now, for the same clock reading.
pub proof fn lemma_sun_next_switch_flips(
    c: AppConfig,
    now: int,
    today: Result<SunEvents, String>,
    rise: u32,
    set: u32,
    tomorrow: Result<SunEvents, String>,
    tomorrow_rise: Option<u32>,
)
    requires
        location_active(c),
        sun_times_spec(now, today, Some(rise), Some(set), tomorrow, tomorrow_rise) is Ok,
    ensures
        should_be_light_spec(c, now, Some((rise, set))) == Some(
            sun_times_spec(now, today, Some(rise), Some(set), tomorrow, tomorrow_rise)->Ok_0.next_switch_is_dark,
        ),
{
}

/// A manual switch holds until the boundary it recorded: with `manual_override_until` set
/// to `until`, the scheduler applies nothing before `until` and, when enabled, applies what
/// the schedule says from `until` on.
pub proof fn lemma_override_until_boundary(c: AppConfig, until: i64, now_ts: int, should: Option<bool>)
    requires
        c.manual_override_until == Some(until),
    ensures
        now_ts < until ==> scheduled_theme_spec(c, now_ts, should) is None,
        now_ts >= until && c.enabled ==> scheduled_theme_spec(c, now_ts, should) == should,
{
}

/// The times that the next-switch report falls back to, 07:00 and 19:00, are the default
/// configuration's sunrise and sunset times as they parse.
pub proof fn lemma_default_times_parse()
    ensures
        parse_time_spec("07:00"@) == Some(25200u32),
        parse_time_spec("19:00"@) == Some(68400u32),
{
    assert(parse_time_spec("07:00"@) == Some(25200u32)) by {
        reveal_strlit("07:00");
        crate::timetext::lemma_format_then_parse(25200);
        assert(two_digits(7) =~= seq!['0', '7']);
        assert(two_digits(0) =~= seq!['0', '0']);
        assert(hhmm_text(25200) =~= "07:00"@);
    }
    assert(parse_time_spec("19:00"@) == Some(68400u32)) by {
        reveal_strlit("19:00");
        crate::timetext::lemma_format_then_parse(68400);
        assert(two_digits(19) =~= seq!['1', '9']);
        assert(two_digits(0) =~= seq!['0', '0']);
        assert(hhmm_text(68400) =~= "19:00"@);
    }
}

/// A location schedule without a location falls back to the fixed times: for every reading
/// of the clock and the time zone, its next boundary is the one the same settings give in
/// fixed mode.
pub proof fn lemma_disabled_location_boundary_is_fixed(
    c: AppConfig,
    sun: SunCalculation,
    now: Option<LocalInstant>,
    a: Option<i64>,
    b: Option<i64>,
    t: Option<i64>,
    r: Option<i64>,
)
    requires
        c.mode == ScheduleMode::Location,
        !c.location.enabled,
    ensures
        boundary_reading(c, sun, now, a, b, t, r) == boundary_reading(
            AppConfig { mode: ScheduleMode::Fixed, ..c },
            sun,
            now,
            a,
            b,
            t,
            r,
        ),
        boundary_possible(c, sun, r) == boundary_possible(
            AppConfig { mode: ScheduleMode::Fixed, ..c },
            sun,
            r,
        ),
{
    let f = AppConfig { mode: ScheduleMode::Fixed, ..c };
    assert forall|n: Option<LocalInstant>, x: Option<i64>, y: Option<i64>, z: Option<i64>|
        boundary_reading(c, sun, n, x, y, z, r) == #[trigger] boundary_reading(
            f,
            sun,
            n,
            x,
            y,
            z,
            r,
        ) by {}
    if boundary_possible(c, sun, r) {
        let (n, x, y, z) = choose|n: Option<LocalInstant>, x: Option<i64>, y: Option<i64>, z: Option<i64>|
            #[trigger] boundary_reading(c, sun, n, x, y, z, r);
        assert(boundary_reading(f, sun, n, x, y, z, r));
    }
    if boundary_possible(f, sun, r) {
        let (n, x, y, z) = choose|n: Option<LocalInstant>, x: Option<i64>, y: Option<i64>, z: Option<i64>|
            #[trigger] boundary_reading(f, sun, n, x, y, z, r);
        assert(boundary_reading(c, sun, n, x, y, z, r));
    }
}

/// A fixed-time boundary taken from today's switch instants is the first of them after
/// now: the manual hold ends at the earliest switch that is still to come today.
pub proof fn lemma_fixed_boundary_is_next(
    now_ts: int,
    a: i64,
    b: i64,
    t: Option<i64>,
)
    ensures
        (a > now_ts || b > now_ts) ==> (fixed_boundary_spec(now_ts, Some(a), Some(b), t) matches Some(x)
            && now_ts < x && (x == a || x == b) && (a > now_ts ==> x <= a) && (b > now_ts ==> x <= b)),
        a <= now_ts && b <= now_ts ==> fixed_boundary_spec(now_ts, Some(a), Some(b), t) == t,
{
}

/// The first switch of a day is the earlier of the two switch times: it is one of them and
/// no later than either.
pub proof fn lemma_first_switch_is_earliest(sunrise: int, sunset: int)
    ensures
        first_switch_secs(sunrise, sunset) == sunrise || first_switch_secs(sunrise, sunset)
            == sunset,
        first_switch_secs(sunrise, sunset) <= sunrise,
        first_switch_secs(sunrise, sunset) <= sunset,
{
}

/// The instant of local time of day `secs`, `day` days after the local date of reading `n`,
/// at the offset of `n`.
pub open spec fn instant_at(n: LocalInstant, day: int, secs: int) -> int {
    naive_timestamp(n.date + day, secs) - n.offset
}

/// The manual hold ends at the next switch: on a day when the time zone keeps one offset
/// (today's and tomorrow's switch instants are read at the clock reading's offset), a fixed
/// schedule's boundary is a switch instant of today or tomorrow that lies after now, and no
/// switch instant of today or tomorrow lies strictly between now and it.
pub proof fn lemma_boundary_is_next_switch(
    c: AppConfig,
    sun: SunCalculation,
    n: LocalInstant,
    a: Option<i64>,
    b: Option<i64>,
    t: Option<i64>,
    r: Option<i64>,
    sr: u32,
    ss: u32,
)
    requires
        !location_active(c),
        parse_time_spec(c.sunrise_time@) == Some(sr),
        parse_time_spec(c.sunset_time@) == Some(ss),
        boundary_reading(c, sun, Some(n), a, b, t, r),
        a == Some(instant_at(n, 0, sr as int) as i64),
        b == Some(instant_at(n, 0, ss as int) as i64),
        t is Some ==> t == Some(instant_at(n, 1, first_switch_secs(sr as int, ss as int)) as i64),
    ensures
        r matches Some(v) ==> {
            &&& v > n.timestamp
            &&& exists|d: int, x: int|
                0 <= d <= 1 && (x == sr || x == ss) && v == #[trigger] instant_at(n, d, x)
            &&& forall|d: int, x: int|
                0 <= d <= 1 && (x == sr || x == ss) ==> !(n.timestamp < #[trigger] instant_at(
                    n,
                    d,
                    x,
                ) && instant_at(n, d, x) < v)
        },
{
    let o = n.offset as int;
    let l = n.timestamp + o;
    assert(l == (l / 86400) * 86400 + l % 86400) by (nonlinear_arith);
    assert(n.timestamp == naive_timestamp(n.date as int, n.seconds as int) - o);
    assert(sr < 86400 && ss < 86400);
    if let Some(v) = r {
        let f = first_switch_secs(sr as int, ss as int);
        if n.timestamp < instant_at(n, 0, sr as int) || n.timestamp < instant_at(n, 0, ss as int) {
            if sr <= ss {
                if n.timestamp < instant_at(n, 0, sr as int) {
                    assert(v == instant_at(n, 0, sr as int));
                } else {
                    assert(v == instant_at(n, 0, ss as int));
                }
            } else {
                if n.timestamp < instant_at(n, 0, ss as int) {
                    assert(v == instant_at(n, 0, ss as int));
                } else {
                    assert(v == instant_at(n, 0, sr as int));
                }
            }
        } else {
            assert(v == instant_at(n, 1, f));
            if sr <= ss {
                assert(v == instant_at(n, 1, sr as int));
            } else {
                assert(v == instant_at(n, 1, ss as int));
            }
        }
    }
}

/// Seconds from local time of day `now` until the next time the clock shows time of day `x`
/// (a full day when it shows `x` now).
pub open spec fn time_until(now: int, x: int) -> int {
    if x > now {
        x - now
    } else {
        x - now + 86400
    }
}

/// The next fixed switch is the nearest switch time after now, going round the clock: it
/// is one of the two switch times, no other switch time comes before it, and it turns the
/// theme dark exactly when it is the sunset time.
pub proof fn lemma_next_switch_is_nearest(c: AppConfig, now: int)
    requires
        0 <= now < 86400,
        parse_time_spec(c.sunrise_time@) is Some,
        parse_time_spec(c.sunset_time@) is Some,
    ensures
        ({
            let sr = parse_time_spec(c.sunrise_time@)->0 as int;
            let ss = parse_time_spec(c.sunset_time@)->0 as int;
            let p = next_fixed_switch_point(c, now);
            &&& p.0 == sr || p.0 == ss
            &&& time_until(now, p.0) <= time_until(now, sr)
            &&& time_until(now, p.0) <= time_until(now, ss)
            &&& (p.1 ==> p.0 == ss)
            &&& (!p.1 ==> p.0 == sr)
        }),
{
}

/// A disabled scheduler never switches.
pub proof fn lemma_disabled_never_switches(c: AppConfig, now_ts: int, should: Option<bool>)
    requires
        !c.enabled,
    ensures
        scheduled_theme_spec(c, now_ts, should) is None,
{
}

} // verus!
