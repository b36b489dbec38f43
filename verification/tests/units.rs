use macmon_tui::units::{
    format_with_hundredths, format_with_tenths, is_over_half, round_half_even, to_double,
    EXACT_DOUBLES, GIGABYTE,
};

/// Whole numbers of every size: powers of two and their neighbours, and some in between.
fn numbers() -> Vec<u64> {
    let mut numbers = vec![0, u64::MAX, u64::MAX - 1];
    for exponent in 0..64 {
        let power = 1u64 << exponent;
        numbers.extend([power - 1, power, power + 1, power | (power >> 1)]);
    }
    let mut state = 88_172_645_463_325_252u64;
    for i in 0..20_000u64 {
        state ^= state << 13;
        state ^= state >> 7;
        state ^= state << 17;
        numbers.push(state >> (i % 60));
    }
    numbers
}

#[test]
fn quotients_round_half_to_even() {
    for (n, rounded) in [(0, 0), (4, 0), (5, 0), (6, 1), (15, 2), (24, 2), (25, 2), (26, 3)] {
        assert_eq!(round_half_even(n, 10), rounded);
    }
    assert_eq!(round_half_even(7, 1), 7);
    assert_eq!(round_half_even(4, 3), 1);
    assert_eq!(round_half_even(5, 3), 2);
}

#[test]
fn doubles_are_those_of_the_machine() {
    for n in numbers() {
        assert_eq!(to_double(n), n as f64 as u128);
    }
    assert_eq!(to_double(EXACT_DOUBLES - 1), 9_007_199_254_740_991);
    assert_eq!(to_double(EXACT_DOUBLES + 1), 9_007_199_254_740_992);
    assert_eq!(to_double(EXACT_DOUBLES + 3), 9_007_199_254_740_996);
    assert_eq!(to_double(u64::MAX), 1 << 64);
}

#[test]
fn gigabytes_are_written_as_doubles_are() {
    for bytes in numbers() {
        let gigabytes = bytes as f64 / GIGABYTE as f64;
        assert_eq!(format_with_hundredths(bytes), format!("{gigabytes:.2}"));
        assert_eq!(format_with_tenths(bytes), format!("{gigabytes:.1}"));
    }
    // Halfway, the even digit is taken.
    for eighths in 0..200 {
        let bytes = eighths * GIGABYTE / 8;
        let gigabytes = bytes as f64 / GIGABYTE as f64;
        assert_eq!(format_with_hundredths(bytes), format!("{gigabytes:.2}"));
        assert_eq!(format_with_tenths(bytes), format!("{gigabytes:.1}"));
    }
    assert_eq!(format_with_hundredths(GIGABYTE / 8), "0.12");
    assert_eq!(format_with_hundredths(3 * GIGABYTE / 8), "0.38");
    assert_eq!(format_with_tenths(GIGABYTE / 4), "0.2");
    assert_eq!(format_with_hundredths(0), "0.00");
    assert_eq!(format_with_tenths(0), "0.0");
    assert_eq!(format_with_hundredths(12 * GIGABYTE + 1), "12.00");
}

#[test]
fn more_bytes_show_no_less() {
    let mut numbers = numbers();
    numbers.sort();
    let shown: Vec<f64> =
        numbers.iter().map(|bytes| format_with_hundredths(*bytes).parse().unwrap()).collect();
    assert!(shown.windows(2).all(|pair| pair[0] <= pair[1]));
}

#[test]
fn halves_are_those_of_doubles() {
    let numbers = numbers();
    for pair in numbers.windows(2) {
        for (part, whole) in [(pair[0], pair[1]), (pair[0], pair[0]), (pair[0] / 2, pair[0])] {
            let share = if whole == 0 { 0.0 } else { part as f64 / whole as f64 };
            assert_eq!(is_over_half(part, whole), share > 0.5);
            if part < u64::MAX {
                let share = if whole == 0 { 0.0 } else { (part + 1) as f64 / whole as f64 };
                assert_eq!(is_over_half(part + 1, whole), share > 0.5);
            }
        }
    }
    assert!(!is_over_half(8, 16));
    assert!(is_over_half(9, 16));
    assert!(!is_over_half(1, 0));
}
