use gstplugins::skia::reshape_common::{PositionRect, Single};
use gstplugins::text::{append_decimal, append_padded_hex};
use gstplugins::values::{
    same_string, same_time, Position, Rate, Seek, SeekType, Segment, FORMAT_TIME, RATE_INFINITY,
    RATE_MINUS_ONE, RATE_ONE, SEEK_FLAG_ACCURATE, SEEK_FLAG_FLUSH,
};

const NUMBERS: [f64; 12] = [
    0.0,
    -0.0,
    1.0,
    -1.0,
    2.5,
    -2.5,
    f64::MIN_POSITIVE,
    -5e-324,
    f64::INFINITY,
    f64::NEG_INFINITY,
    f64::NAN,
    -f64::NAN,
];

fn rate(value: f64) -> Rate {
    Rate { bits: value.to_bits() }
}

#[test]
fn rates_compare_like_numbers() {
    for a in NUMBERS {
        assert_eq!(rate(a).is_positive(), a > 0.0, "{a}");
        assert_eq!(rate(a).is_negative(), a < 0.0, "{a}");
        assert_eq!(rate(a).is_unit(), a.abs() == 1.0, "{a}");
        for b in NUMBERS {
            assert_eq!(rate(a).equals(&rate(b)), a == b, "{a} {b}");
        }
    }
    assert_eq!(RATE_ONE, 1f64.to_bits());
    assert_eq!(RATE_MINUS_ONE, (-1f64).to_bits());
    assert_eq!(RATE_INFINITY, f64::INFINITY.to_bits());
}

#[test]
fn singles_compare_like_numbers() {
    for a in NUMBERS {
        for b in NUMBERS {
            let (a, b) = (a as f32, b as f32);
            let (x, y) = (Single { bits: a.to_bits() }, Single { bits: b.to_bits() });
            assert_eq!(x.equals(&y), a == b, "{a} {b}");
        }
    }
}

#[test]
fn positions_compare_by_coordinates() {
    let at = |left: f32, top: f32| PositionRect {
        left: Single { bits: left.to_bits() },
        top: Single { bits: top.to_bits() },
        right: Single { bits: 10f32.to_bits() },
        bottom: Single { bits: 20f32.to_bits() },
    };
    assert!(at(0.0, 1.0).equals(&at(-0.0, 1.0)));
    assert!(!at(0.0, 1.0).equals(&at(0.5, 1.0)));
    assert!(!at(0.0, 1.0).equals(&at(0.0, 1.5)));
    assert!(!at(0.0, f32::NAN).equals(&at(0.0, f32::NAN)));
}

fn segment() -> Segment {
    Segment {
        flags: 0,
        rate: rate(1.0),
        applied_rate: rate(1.0),
        format: FORMAT_TIME,
        base: Some(0),
        offset: Some(0),
        start: Some(1),
        stop: Some(2),
        time: Some(3),
        position: Some(4),
        duration: None,
    }
}

#[test]
fn segments_compare_by_fields() {
    let s = segment();
    assert!(s.is_time());
    assert!(s.equals(&segment()));
    assert!(!s.equals(&Segment { flags: 1, ..s }));
    assert!(!s.equals(&Segment { rate: rate(2.0), ..s }));
    assert!(!s.equals(&Segment { applied_rate: rate(2.0), ..s }));
    assert!(!s.equals(&Segment { format: 2, ..s }));
    assert!(!s.equals(&Segment { base: None, ..s }));
    assert!(!s.equals(&Segment { offset: Some(1), ..s }));
    assert!(!s.equals(&Segment { start: None, ..s }));
    assert!(!s.equals(&Segment { stop: Some(3), ..s }));
    assert!(!s.equals(&Segment { time: None, ..s }));
    assert!(!s.equals(&Segment { position: None, ..s }));
    assert!(!s.equals(&Segment { duration: Some(0), ..s }));
    assert!(!Segment { format: 2, ..s }.is_time());
}

#[test]
fn optional_values_compare() {
    assert!(same_time(None, None));
    assert!(same_time(Some(1), Some(1)));
    assert!(!same_time(Some(1), Some(2)));
    assert!(!same_time(Some(1), None));
    let a = Some(String::from("a"));
    assert!(same_string(&a, &a.clone()));
    assert!(!same_string(&a, &Some(String::from("b"))));
    assert!(!same_string(&a, &None));
    assert!(same_string(&None, &None));
}

#[test]
fn flushing_seeks_are_told_by_their_flag() {
    let position = Position { format: FORMAT_TIME, value: Some(0) };
    let seek = |flags: u32| Seek {
        rate: rate(1.0),
        flags,
        start_type: SeekType::Absolute,
        start: position,
        stop_type: SeekType::Unchanged,
        stop: position,
    };
    assert!(seek(SEEK_FLAG_FLUSH).is_flushing());
    assert!(seek(SEEK_FLAG_FLUSH | SEEK_FLAG_ACCURATE).is_flushing());
    assert!(!seek(SEEK_FLAG_ACCURATE).is_flushing());
    assert!(!seek(0).is_flushing());
}

#[test]
fn numbers_are_printed() {
    for n in [0u64, 7, 10, 99, 100, 1234567890, u64::MAX] {
        let mut text = String::from("n=");
        append_decimal(&mut text, n);
        assert_eq!(text, format!("n={n}"));
        for width in [0u8, 1, 8, 20] {
            let mut text = String::from("x");
            append_padded_hex(&mut text, n, width);
            assert_eq!(text, format!("x{n:0width$x}", width = width as usize));
        }
    }
}

#[test]
fn seeks_compare_by_fields() {
    let position = |value: u64| Position { format: FORMAT_TIME, value: Some(value) };
    let seek = Seek {
        rate: rate(0.0),
        flags: SEEK_FLAG_FLUSH,
        start_type: SeekType::Absolute,
        start: position(1),
        stop_type: SeekType::Unchanged,
        stop: position(2),
    };
    assert!(seek.equals(&seek));
    assert!(seek.equals(&Seek { rate: rate(-0.0), ..seek }));
    assert!(!seek.equals(&Seek { rate: rate(1.0), ..seek }));
    assert!(!seek.equals(&Seek { flags: SEEK_FLAG_ACCURATE, ..seek }));
    assert!(!seek.equals(&Seek { start_type: SeekType::Unchanged, ..seek }));
    assert!(!seek.equals(&Seek { start: position(2), ..seek }));
    assert!(!seek.equals(&Seek { stop_type: SeekType::Absolute, ..seek }));
    assert!(!seek.equals(&Seek { stop: position(3), ..seek }));
    let unknown = Seek { rate: rate(f64::NAN), ..seek };
    assert!(!unknown.equals(&unknown));
}
