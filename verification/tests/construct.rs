use time_datum::{Component, RangeError, Time};

fn out_of_range(component: Component) -> RangeError {
    RangeError { component }
}

#[test]
fn from_hms_accepts_last_second_of_day() {
    let t = Time::from_hms(23, 59, 59).unwrap();
    assert_eq!(t.hour(), 23);
    assert_eq!(t.minute(), 59);
    assert_eq!(t.second(), 59);
    assert_eq!(t.microsecond(), 0);
}

#[test]
fn from_hms_accepts_midnight() {
    let t = Time::from_hms(0, 0, 0).unwrap();
    assert_eq!((t.hour(), t.minute(), t.second(), t.microsecond()), (0, 0, 0, 0));
}

#[test]
fn from_hms_rejects_hour_24() {
    assert_eq!(Time::from_hms(24, 0, 0), Err(out_of_range(Component::Hour)));
}

#[test]
fn from_hms_rejects_minute_60() {
    assert_eq!(Time::from_hms(23, 60, 0), Err(out_of_range(Component::Minute)));
}

#[test]
fn from_hms_rejects_second_60() {
    assert_eq!(Time::from_hms(23, 59, 60), Err(out_of_range(Component::Second)));
}

#[test]
fn from_hms_is_from_hms_micro_on_the_full_second() {
    for &(h, m, s) in &[(0u8, 0u8, 0u8), (8, 30, 5), (23, 59, 59), (24, 0, 0), (0, 60, 0), (0, 0, 60), (255, 255, 255)] {
        assert_eq!(Time::from_hms(h, m, s), Time::from_hms_micro(h, m, s, 0));
    }
}

#[test]
fn from_hms_micro_keeps_every_component() {
    let t = Time::from_hms_micro(8, 30, 5, 123_456).unwrap();
    assert_eq!(t.hour(), 8);
    assert_eq!(t.minute(), 30);
    assert_eq!(t.second(), 5);
    assert_eq!(t.microsecond(), 123_456);
}

#[test]
fn from_hms_micro_accepts_the_largest_components() {
    let t = Time::from_hms_micro(23, 59, 59, 999_999).unwrap();
    assert_eq!((t.hour(), t.minute(), t.second(), t.microsecond()), (23, 59, 59, 999_999));
}

#[test]
fn from_hms_micro_rejects_each_component_just_past_its_domain() {
    assert_eq!(Time::from_hms_micro(24, 0, 0, 0), Err(out_of_range(Component::Hour)));
    assert_eq!(Time::from_hms_micro(0, 60, 0, 0), Err(out_of_range(Component::Minute)));
    assert_eq!(Time::from_hms_micro(0, 0, 60, 0), Err(out_of_range(Component::Second)));
    assert_eq!(
        Time::from_hms_micro(0, 0, 0, 1_000_000),
        Err(out_of_range(Component::Microsecond))
    );
    assert_eq!(
        Time::from_hms_micro(23, 59, 59, u32::MAX),
        Err(out_of_range(Component::Microsecond))
    );
}

#[test]
fn from_hms_micro_names_the_first_component_out_of_range() {
    assert_eq!(Time::from_hms_micro(24, 60, 60, 1_000_000), Err(out_of_range(Component::Hour)));
    assert_eq!(Time::from_hms_micro(23, 60, 60, 1_000_000), Err(out_of_range(Component::Minute)));
    assert_eq!(Time::from_hms_micro(23, 59, 60, 1_000_000), Err(out_of_range(Component::Second)));
}

#[test]
fn new_accepts_components_in_range() {
    let t = Time::new(8, 30, 5, 123_456).unwrap();
    assert_eq!(Ok(t), Time::from_hms_micro(8, 30, 5, 123_456));
    assert!(Time::new(0, 0, 0, 0).is_ok());
    assert!(Time::new(23, 59, 59, 999_999).is_ok());
}

#[test]
fn new_rejects_negative_components() {
    assert_eq!(Time::new(-1, 0, 0, 0), Err(out_of_range(Component::Hour)));
    assert_eq!(Time::new(0, -1, 0, 0), Err(out_of_range(Component::Minute)));
    assert_eq!(Time::new(0, 0, -1, 0), Err(out_of_range(Component::Second)));
    assert_eq!(Time::new(0, 0, 0, -1), Err(out_of_range(Component::Microsecond)));
}

#[test]
fn new_does_not_wrap_large_components() {
    assert_eq!(Time::new(256, 0, 0, 0), Err(out_of_range(Component::Hour)));
    assert_eq!(Time::new(0, 256 + 59, 0, 0), Err(out_of_range(Component::Minute)));
    assert_eq!(Time::new(0, 0, 512, 0), Err(out_of_range(Component::Second)));
    assert_eq!(Time::new(0, 0, 0, 1 << 32), Err(out_of_range(Component::Microsecond)));
    assert_eq!(Time::new(i64::MAX, 0, 0, 0), Err(out_of_range(Component::Hour)));
    assert_eq!(Time::new(i64::MIN, 0, 0, 0), Err(out_of_range(Component::Hour)));
}

#[test]
fn times_are_equal_exactly_when_their_components_are() {
    let t = Time::from_hms_micro(8, 30, 5, 123_456).unwrap();
    assert_eq!(t, Time::from_hms_micro(8, 30, 5, 123_456).unwrap());
    assert_ne!(t, Time::from_hms_micro(9, 30, 5, 123_456).unwrap());
    assert_ne!(t, Time::from_hms_micro(8, 31, 5, 123_456).unwrap());
    assert_ne!(t, Time::from_hms_micro(8, 30, 6, 123_456).unwrap());
    assert_ne!(t, Time::from_hms_micro(8, 30, 5, 123_457).unwrap());
    let copy = t;
    assert_eq!(copy, t);
}
