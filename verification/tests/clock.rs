use chrono::{Datelike, Local, TimeZone, Timelike};

use auto_dark_mode::clock::{local_now, local_reading, local_seconds};

const MAX_TS: i64 = 8210266876799;
const MIN_TS: i64 = -8334601228800;

#[test]
fn local_reading_matches_chrono() {
    for ts in [0i64, 1_704_085_200, 1_719_792_000, -86_400 * 365, 4_102_444_800] {
        let n = local_reading(ts).expect("in range");
        let dt = Local.timestamp_opt(ts, 0).unwrap();
        assert_eq!(n.timestamp, ts);
        assert_eq!(n.seconds, dt.time().num_seconds_from_midnight());
        assert_eq!(n.date, dt.date_naive().num_days_from_ce());
        assert_eq!(n.offset, dt.offset().local_minus_utc());
        assert_eq!(local_seconds(ts), Some(n.seconds));
    }
}

#[test]
fn local_reading_at_range_edges() {
    // no panic at chrono's range ends, whatever the time zone
    let hi = local_reading(MAX_TS).expect("last instant");
    assert!(hi.seconds < 86400);
    let lo = local_reading(MIN_TS).expect("first instant");
    assert!(lo.seconds < 86400);
    assert!(local_reading(MAX_TS + 1).is_none());
    assert!(local_reading(MIN_TS - 1).is_none());
    assert!(local_seconds(MAX_TS).is_some());
    assert!(local_seconds(i64::MAX).is_none());
}

#[test]
fn local_now_is_current() {
    let n = local_now().expect("clock after 1970");
    let t = Local::now().timestamp();
    assert!((n.timestamp - t).abs() <= 2);
    assert!(n.seconds < 86400);
    assert_eq!(n.date as i64, (n.timestamp + n.offset as i64).div_euclid(86400) + 719163);
}
