use telraam::time::{Timestamp, YEAR_10000};

#[test]
fn parse_reads_rfc3339_in_utc() {
    assert_eq!(
        Some(Timestamp {
            secs: 1604041200,
            nanos: 0
        }),
        Timestamp::parse("2020-10-30T07:00:00.000Z")
    );
    assert_eq!(
        Some(Timestamp {
            secs: 1604041200,
            nanos: 0
        }),
        Timestamp::parse("2020-10-30 07:00:00Z")
    );
    assert_eq!(
        Some(Timestamp {
            secs: 1604041200,
            nanos: 0
        }),
        Timestamp::parse("2020-10-30 07:00:00")
    );
    assert_eq!(
        Some(Timestamp {
            secs: 1570045374,
            nanos: 343_000_000
        }),
        Timestamp::parse("2019-10-02T19:42:54.343Z")
    );
    assert_eq!(
        Some(Timestamp { secs: 0, nanos: 0 }),
        Timestamp::parse("1970-01-01T00:00:00+00:00")
    );
    assert_eq!(
        Some(Timestamp {
            secs: 0,
            nanos: 123_456_789
        }),
        Timestamp::parse("1970-01-01T00:00:00.123456789Z")
    );
}

#[test]
fn parse_refuses_what_is_no_instant() {
    assert_eq!(None, Timestamp::parse(""));
    assert_eq!(None, Timestamp::parse("2020-10-30"));
    assert_eq!(None, Timestamp::parse("2020-13-30T07:00:00Z"));
    assert_eq!(None, Timestamp::parse("2020-02-30T07:00:00Z"));
    assert_eq!(None, Timestamp::parse("1969-12-31T23:59:59Z"));
    assert_eq!(None, Timestamp::parse("2020-10-30T07:00:00+01:00"));
    assert_eq!(None, Timestamp::parse("2020-10-30T07:00:0xZ"));
}

#[test]
fn parse_reaches_the_last_second_with_four_digits() {
    assert_eq!(
        Some(Timestamp {
            secs: YEAR_10000 - 1,
            nanos: 0
        }),
        Timestamp::parse("9999-12-31T23:59:59Z")
    );
}

#[test]
fn millis_text_has_three_fraction_digits() {
    let at = Timestamp {
        secs: 1604041200,
        nanos: 0,
    };
    assert_eq!("2020-10-30T07:00:00.000Z", at.to_rfc3339_millis());
    let at = Timestamp {
        secs: 1570045374,
        nanos: 343_999_999,
    };
    assert_eq!("2019-10-02T19:42:54.343Z", at.to_rfc3339_millis());
    let at = Timestamp { secs: 0, nanos: 1 };
    assert_eq!("1970-01-01T00:00:00.000Z", at.to_rfc3339_millis());
    let at = Timestamp {
        secs: YEAR_10000 - 1,
        nanos: 999_999_999,
    };
    assert_eq!("9999-12-31T23:59:59.999Z", at.to_rfc3339_millis());
}

#[test]
fn millis_text_has_the_fixed_layout() {
    for secs in [0u64, 86_399, 951_782_400, 1_709_251_199, YEAR_10000 - 1] {
        let text = Timestamp { secs, nanos: 5_000_000 }.to_rfc3339_millis();
        let chars: Vec<char> = text.chars().collect();
        assert_eq!(24, chars.len());
        for (i, c) in chars.iter().enumerate() {
            match i {
                4 | 7 => assert_eq!('-', *c),
                10 => assert_eq!('T', *c),
                13 | 16 => assert_eq!(':', *c),
                19 => assert_eq!('.', *c),
                23 => assert_eq!('Z', *c),
                _ => assert!(c.is_ascii_digit()),
            }
        }
        assert_eq!("005", &text[20..23]);
    }
}

#[test]
fn what_is_written_is_read_back_to_the_millisecond() {
    let at = Timestamp {
        secs: 1604041200,
        nanos: 987_654_321,
    };
    assert_eq!(
        Some(Timestamp {
            secs: 1604041200,
            nanos: 987_000_000
        }),
        Timestamp::parse(&at.to_rfc3339_millis())
    );
}

#[test]
fn new_takes_instants_that_can_be_written() {
    assert_eq!(
        Some(Timestamp { secs: 5, nanos: 6 }),
        Timestamp::new(5, 6)
    );
    assert_eq!(None, Timestamp::new(YEAR_10000, 0));
    assert_eq!(None, Timestamp::new(0, 1_000_000_000));
    assert!(Timestamp::new(YEAR_10000 - 1, 999_999_999).is_some());
    assert!(Timestamp { secs: 1, nanos: 2 }.is_valid());
    assert!(!Timestamp {
        secs: u64::MAX,
        nanos: 0
    }
    .is_valid());
}
