use ds::clock::{clock_tag, date_time_tag, UtcFields};
use ds::proto::udp::outbound::types::tags::DateTime;

#[test]
fn tag_of_an_instant() {
    // 2024-04-23 17:55:30.123456 UTC
    let tag = clock_tag(1713894930, 123_456_000).unwrap();
    assert_eq!(tag, DateTime::new(123456, 30, 55, 17, 23, 3, 124));
    assert_eq!(
        tag.construct().as_ref(),
        &[0x0B, 0x0f, 0x00, 0x01, 0xE2, 0x40, 0x1E, 0x37, 0x11, 0x17, 0x03, 0x7C]
    );
}

#[test]
fn tag_of_the_epoch() {
    assert_eq!(clock_tag(0, 0), Some(DateTime::new(0, 0, 0, 0, 1, 0, 70)));
    assert_eq!(clock_tag(0, 999_999_999), Some(DateTime::new(999_999, 0, 0, 0, 1, 0, 70)));
}

#[test]
fn tag_of_an_instant_before_1900_and_after_2155() {
    // 1899-12-31 23:59:59 UTC: one year before 1900 is 255 in eight bits.
    assert_eq!(clock_tag(-2208988801, 0), Some(DateTime::new(0, 59, 59, 23, 31, 11, 255)));
    // 2200-01-02 03:04:05 UTC: 300 years after 1900 is 44 in eight bits.
    assert_eq!(clock_tag(7258215845, 0), Some(DateTime::new(0, 5, 4, 3, 2, 0, 44)));
}

#[test]
fn no_tag_for_an_instant_out_of_range() {
    assert_eq!(clock_tag(i64::MAX, 0), None);
    assert_eq!(clock_tag(i64::MIN, 0), None);
    assert_eq!(clock_tag(0, 2_000_000_000), None);
}

#[test]
fn tag_of_given_fields() {
    let fields = UtcFields {
        micros: 123456,
        second: 30,
        minute: 55,
        hour: 17,
        day: 23,
        month0: 4,
        year: 2024,
    };
    assert_eq!(date_time_tag(fields), DateTime::new(123456, 30, 55, 17, 23, 4, 124));
}

#[test]
fn fields_keep_their_low_eight_bits() {
    let fields = UtcFields {
        micros: 1_999_999,
        second: 256 + 59,
        minute: 512 + 1,
        hour: 0xffff_ff17,
        day: 300,
        month0: 255,
        year: 1900 + 256 * 7 + 5,
    };
    assert_eq!(date_time_tag(fields), DateTime::new(1_999_999, 59, 1, 0x17, 44, 255, 5));
    let early =
        UtcFields { micros: 0, second: 0, minute: 0, hour: 0, day: 1, month0: 0, year: 1644 };
    assert_eq!(date_time_tag(early).year, 0);
    let earlier = UtcFields { year: 1643, ..early };
    assert_eq!(date_time_tag(earlier).year, 255);
    let first = UtcFields { year: i32::MIN, ..early };
    assert_eq!(date_time_tag(first).year, ((i32::MIN as i64 - 1900) as u8));
    let last = UtcFields { year: i32::MAX, ..early };
    assert_eq!(date_time_tag(last).year, ((i32::MAX as i64 - 1900) as u8));
}
