use gbemu::time::duration::{Duration, RTCDuration};
use gbemu::time::time::TimeUnit;

#[test]
fn duration_add() {
    let duration = Duration::from_seconds(2);
    let longer = duration.add(500, TimeUnit::Milliseconds);
    assert_eq!(longer.nanoseconds, 2_500_000_000);
    assert_eq!(longer.add(3, TimeUnit::Nanoseconds).nanoseconds, 2_500_000_003);
}

#[test]
fn duration_subtract_and_divide() {
    let duration = Duration::from_nanoseconds(10_000);
    assert_eq!(duration.subtract(4, TimeUnit::Microseconds).nanoseconds, 6_000);
    assert_eq!(duration.divide_by(3, TimeUnit::Microseconds), 3);
    assert_eq!(Duration::new().nanoseconds, 0);
}

#[test]
fn rtc_duration_round_trip() {
    let rtc = RTCDuration { seconds: 56, minutes: 34, hours: 12, days: 361 };
    let duration = rtc.to_duration();
    assert_eq!(duration.nanoseconds, (56 + 34 * 60 + 12 * 3600 + 361 * 86400) as u128 * 1_000_000_000);
    assert_eq!(duration.to_rtc_duration(), rtc);
}

#[test]
fn rtc_duration_drops_partial_seconds() {
    let duration = Duration::from_nanoseconds(90_061_999_999_999);
    let rtc = duration.to_rtc_duration();
    assert_eq!(rtc, RTCDuration { seconds: 1, minutes: 1, hours: 1, days: 1 });
}
