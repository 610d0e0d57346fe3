use media_ingest::coord::{
    gps_video, Coordinates, DecDegrees, Location, Rational,
};
use media_ingest::decimal::parse_decimal;
use media_ingest::text::{chars_of, same_text};

fn decimal(text: &str) -> Option<i64> {
    let v = chars_of(text);
    parse_decimal(&v, 0, v.len())
}

fn whole(n: u32) -> Rational {
    Rational { num: n, denom: 1 }
}

#[test]
fn decimal_numerals_are_read_in_millionths() {
    assert_eq!(decimal("10.000000"), Some(10_000_000));
    assert_eq!(decimal("10"), Some(10_000_000));
    assert_eq!(decimal("0.5"), Some(500_000));
    assert_eq!(decimal("5."), Some(5_000_000));
    assert_eq!(decimal("+015.5612"), Some(15_561_200));
    assert_eq!(decimal("-33.8688"), Some(-33_868_800));
    assert_eq!(decimal("1.0000019"), Some(1_000_001));
    assert_eq!(decimal("0.000000999"), Some(0));
    assert_eq!(decimal("-0"), Some(0));
    assert_eq!(decimal("29.97"), Some(29_970_000));
}

#[test]
fn other_texts_are_no_decimal_numerals() {
    for text in ["", "+", "-", ".", ".5", "1e3", "1.2.3", "12a", " 1", "1 ", "inf", "NaN", "--1", "1,5"] {
        assert_eq!(decimal(text), None, "{:?}", text);
    }
}

#[test]
fn decimal_out_of_range_is_refused() {
    assert_eq!(decimal("9223372036854.775807"), Some(i64::MAX));
    assert_eq!(decimal("9223372036854.775808"), None);
    assert_eq!(decimal("-9223372036854.775807"), Some(-i64::MAX));
    assert_eq!(decimal("9223372036855"), None);
    assert_eq!(decimal("99999999999999999999999999999999"), None);
}

#[test]
fn decimal_is_read_from_a_part_of_the_text() {
    let v = chars_of("ab12.5cd");
    assert_eq!(parse_decimal(&v, 2, 6), Some(12_500_000));
    assert_eq!(parse_decimal(&v, 2, 7), None);
    assert_eq!(parse_decimal(&v, 3, 3), None);
}

#[test]
fn coordinates_of_a_video_are_two_signed_decimals() {
    assert_eq!(
        gps_video("+58.3938+015.5612/"),
        Some(Coordinates { latitude: 58_393_800, longitude: 15_561_200 })
    );
    assert_eq!(
        gps_video("-33.8688-070.6693"),
        Some(Coordinates { latitude: -33_868_800, longitude: -70_669_300 })
    );
    assert_eq!(
        gps_video("+27.5916+086.5640+8850/"),
        Some(Coordinates { latitude: 27_591_600, longitude: 86_564_000 })
    );
    for text in ["", "58.3938+015.5612/", "+58.3938", "+58.3938/", "+58.3938+", "+a+b/", "/"] {
        assert_eq!(gps_video(text), None, "{:?}", text);
    }
}

#[test]
fn degrees_minutes_and_seconds_make_decimal_degrees() {
    let north = DecDegrees::new(whole(59), whole(0), whole(0), true);
    assert_eq!(north.to_scalar(), Some(59_000_000));
    let angle = DecDegrees::new(whole(58), whole(23), Rational { num: 3768, denom: 100 }, true);
    // 58 + 23 / 60 + 37.68 / 3600 = 58.3938
    assert_eq!(angle.to_scalar(), Some(58_393_800));
    let south = DecDegrees::new(whole(33), whole(52), Rational { num: 768, denom: 100 }, false);
    assert_eq!(south.to_scalar(), Some(-33_868_800));
    let thirds = DecDegrees::new(Rational { num: 1, denom: 3 }, whole(0), whole(0), true);
    assert_eq!(thirds.to_scalar(), Some(333_333));
}

#[test]
fn angle_with_a_zero_denominator_has_no_value() {
    let bad = DecDegrees::new(whole(59), Rational { num: 1, denom: 0 }, whole(0), true);
    assert_eq!(bad.to_scalar(), None);
    let good = DecDegrees::new(whole(18), whole(3), whole(0), true);
    assert_eq!(Coordinates::from_dec_degrees(&bad, &good), None);
    assert_eq!(Coordinates::from_dec_degrees(&good, &bad), None);
    assert_eq!(
        Coordinates::from_dec_degrees(&good, &good),
        Some(Coordinates { latitude: 18_050_000, longitude: 18_050_000 })
    );
}

#[test]
fn angle_of_extreme_parts_is_computed_without_overflow() {
    let max = Rational { num: u32::MAX, denom: 1 };
    let huge = DecDegrees::new(max, max, max, true);
    // 4294967295 + 4294967295 / 60 + 4294967295 / 3600 degrees, in millionths
    assert_eq!(huge.to_scalar(), Some(4_367_743_129_720_833));
    let tiny = DecDegrees::new(
        Rational { num: 1, denom: u32::MAX },
        Rational { num: 1, denom: u32::MAX },
        Rational { num: 1, denom: u32::MAX },
        false,
    );
    assert_eq!(tiny.to_scalar(), Some(0));
}

#[test]
fn angle_is_split_and_put_together_again() {
    for value in [0i64, 1, 59_000_000, 58_393_800, -33_868_800, 179_999_999, -180_000_000, 999_999] {
        let parts = DecDegrees::from_scalar(value);
        assert_eq!(parts.to_scalar(), Some(value), "{}", value);
    }
    let parts = DecDegrees::from_scalar(-33_868_800);
    assert_eq!(parts.d, whole(33));
    assert_eq!(parts.m, whole(52));
    assert_eq!(parts.s, Rational { num: 7_680_000, denom: 1_000_000 });
    assert!(!parts.is_positive);
}

#[test]
fn location_holds_point_and_place() {
    let l = Location::new(59_000_000, 18_000_000, "Stockholm, SE".to_string());
    assert_eq!((l.latitude, l.longitude, l.place.as_str()), (59_000_000, 18_000_000, "Stockholm, SE"));
    let lat = DecDegrees::new(whole(59), whole(30), whole(0), true);
    let lon = DecDegrees::new(whole(18), whole(0), whole(36), false);
    let made = Location::from_dec_degrees(&lat, &lon, "x".to_string()).unwrap();
    assert_eq!((made.latitude, made.longitude), (59_500_000, -18_010_000));
    let bad = DecDegrees::new(Rational { num: 1, denom: 0 }, whole(0), whole(0), true);
    assert!(Location::from_dec_degrees(&bad, &lon, "x".to_string()).is_none());
}

#[test]
fn texts_are_compared_character_by_character() {
    assert!(same_text("video", "video"));
    assert!(!same_text("video", "Video"));
    assert!(!same_text("video", "video "));
    assert!(same_text("", ""));
    assert_eq!(chars_of("a\u{e9}z"), vec!['a', '\u{e9}', 'z']);
}
