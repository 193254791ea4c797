use kacemon::numbers::Fixed;
use kacemon::text::{
    char_count, chars_of, contains, decimal_string, ellipsize, fit, join, pad_left, pad_right,
    repeat, same_text, starts_with,
};
use kacemon::units::{format_bytes, format_rate};

fn fixed(thousandths: i64) -> Fixed {
    Fixed::from_thousandths(thousandths)
}

#[test]
fn fit_fills_short_text_with_blanks() {
    assert_eq!(fit("abc", 5), "abc  ");
    assert_eq!(fit("abc", 3), "abc");
    assert_eq!(fit("", 4), "    ");
}

#[test]
fn fit_cuts_long_text_with_an_ellipsis() {
    assert_eq!(fit("abcdefghij", 8), "abcde...");
    assert_eq!(fit("abcdefghij", 9), "abcdef...");
    assert_eq!(fit("abcdefghij", 10), "abcdefghij");
    assert_eq!(fit("abcdef", 3), "...");
}

#[test]
fn fit_never_exceeds_a_narrow_width() {
    assert_eq!(fit("abcdef", 2), "..");
    assert_eq!(fit("abcdef", 1), ".");
    assert_eq!(fit("abcdef", 0), "");
    for width in 0..20 {
        assert_eq!(fit("a longer line of text", width).chars().count(), width);
        assert_eq!(fit("tiny", width).chars().count(), width);
    }
}

#[test]
fn fit_counts_characters_not_bytes() {
    assert_eq!(fit("héllo wörld", 8), "héllo...");
    assert_eq!(fit("↑↓", 4), "↑↓  ");
    assert_eq!(char_count("↑↓"), 2);
}

#[test]
fn ellipsize_keeps_what_fits() {
    assert_eq!(ellipsize("abc", 5), "abc");
    assert_eq!(ellipsize("abcdef", 5), "ab...");
}

#[test]
fn padding_goes_to_either_side() {
    assert_eq!(pad_right("ab", 4), "ab  ");
    assert_eq!(pad_left("ab", 4), "  ab");
    assert_eq!(pad_right("abcdef", 4), "abcdef");
    assert_eq!(pad_left("abcdef", 4), "abcdef");
}

#[test]
fn repeat_writes_the_pattern_in_a_row() {
    assert_eq!(repeat("ab", 3), "ababab");
    assert_eq!(repeat("─", 4), "────");
    assert_eq!(repeat("x", 0), "");
}

#[test]
fn decimal_string_writes_every_number() {
    assert_eq!(decimal_string(0), "0");
    assert_eq!(decimal_string(7), "7");
    assert_eq!(decimal_string(10), "10");
    assert_eq!(decimal_string(1234567890123456789), "1234567890123456789");
    assert_eq!(decimal_string(u64::MAX), "18446744073709551615");
}

#[test]
fn contains_finds_a_text_anywhere() {
    assert!(contains("hello world", "lo w"));
    assert!(contains("hello world", "hello"));
    assert!(contains("hello world", "world"));
    assert!(contains("abc", ""));
    assert!(contains("", ""));
    assert!(!contains("", "a"));
    assert!(!contains("abc", "abcd"));
    assert!(!contains("hello world", "worlds"));
    assert!(contains("aaab", "aab"));
}

#[test]
fn starts_with_looks_at_the_beginning_only() {
    assert!(starts_with("eth0", "eth"));
    assert!(starts_with("lo", "lo"));
    assert!(!starts_with("l", "lo"));
    assert!(!starts_with("xlo", "lo"));
    assert!(starts_with("anything", ""));
}

#[test]
fn join_puts_the_separator_between() {
    let parts = vec!["a".to_string(), "b".to_string(), "c".to_string()];
    assert_eq!(join(&parts, " "), "a b c");
    assert_eq!(join(&vec!["only".to_string()], ", "), "only");
    assert_eq!(join(&Vec::new(), " "), "");
    assert_eq!(join(&vec!["".to_string(), "".to_string()], "-"), "-");
}

#[test]
fn texts_are_the_same_where_every_character_is() {
    assert!(same_text("abc", "abc"));
    assert!(same_text("", ""));
    assert!(same_text("↑é", "↑é"));
    assert!(!same_text("abc", "abd"));
    assert!(!same_text("abc", "ab"));
    assert!(!same_text("", "a"));
    assert!(!same_text("e", "é"));
}

#[test]
fn chars_of_lists_the_characters() {
    assert_eq!(chars_of("a↑b"), vec!['a', '↑', 'b']);
    assert_eq!(chars_of(""), Vec::<char>::new());
}

#[test]
fn fixed_numbers_are_written_with_their_decimals() {
    assert_eq!(fixed(12345).format(3), "12.345");
    assert_eq!(fixed(12345).format(1), "12.3");
    assert_eq!(fixed(12345).format(0), "12");
    assert_eq!(fixed(1234).format(2), "1.23");
    assert_eq!(fixed(0).format(1), "0.0");
    assert_eq!(fixed(0).format(0), "0");
    assert_eq!(fixed(7).format(3), "0.007");
    assert_eq!(fixed(100_000).format(1), "100.0");
    assert_eq!(fixed(12345).format(4), "12.345");
    assert_eq!(fixed(-1).format(255), "-0.001");
}

#[test]
fn fixed_numbers_round_ties_to_even() {
    assert_eq!(fixed(12350).format(1), "12.4");
    assert_eq!(fixed(12250).format(1), "12.2");
    assert_eq!(fixed(12251).format(1), "12.3");
    assert_eq!(fixed(12249).format(1), "12.2");
    assert_eq!(fixed(500).format(0), "0");
    assert_eq!(fixed(1500).format(0), "2");
    assert_eq!(fixed(2500).format(0), "2");
    assert_eq!(fixed(1235).format(2), "1.24");
    assert_eq!(fixed(1245).format(2), "1.24");
    assert_eq!(fixed(5).format(2), "0.00");
    assert_eq!(fixed(15).format(2), "0.02");
    assert_eq!(fixed(999_950).format(1), "1000.0");
}

#[test]
fn fixed_numbers_keep_their_sign() {
    assert_eq!(fixed(-12345).format(1), "-12.3");
    assert_eq!(fixed(-500).format(0), "-0");
    assert_eq!(fixed(-40).format(1), "-0.0");
    assert_eq!(fixed(i64::MIN).format(3), "-9223372036854775.808");
    assert_eq!(fixed(i64::MAX).format(3), "9223372036854775.807");
    assert_eq!(fixed(i64::MIN).magnitude(), 9223372036854775808);
}

#[test]
fn fixed_numbers_agree_with_the_notation_of_exact_fractions() {
    assert_eq!(fixed(250).format(1), format!("{:.1}", 0.25f64));
    assert_eq!(fixed(750).format(1), format!("{:.1}", 0.75f64));
    assert_eq!(fixed(125).format(2), format!("{:.2}", 0.125f64));
    assert_eq!(fixed(375).format(2), format!("{:.2}", 0.375f64));
    assert_eq!(fixed(2500).format(0), format!("{:.0}", 2.5f64));
    assert_eq!(fixed(3500).format(0), format!("{:.0}", 3.5f64));
    assert_eq!(fixed(-2500).format(0), format!("{:.0}", -2.5f64));
    assert_eq!(fixed(-250).format(1), format!("{:.1}", -0.25f64));
}

#[test]
fn fixed_numbers_compare_with_whole_units() {
    assert!(fixed(90_001).exceeds(90));
    assert!(!fixed(90_000).exceeds(90));
    assert!(fixed(90_000).reaches(90));
    assert!(!fixed(89_999).reaches(90));
}

#[test]
fn byte_counts_use_binary_units() {
    assert_eq!(format_bytes(0), "0B");
    assert_eq!(format_bytes(1), "1B");
    assert_eq!(format_bytes(1023), "1023B");
    assert_eq!(format_bytes(1024), "1.0KB");
    assert_eq!(format_bytes(1536), "1.5KB");
    assert_eq!(format_bytes(1024 * 1024 - 1), "1024.0KB");
    assert_eq!(format_bytes(1024 * 1024), "1.0MB");
    assert_eq!(format_bytes(1024 * 1024 * 1024), "1.0GB");
    assert_eq!(format_bytes(1024u64 * 1024 * 1024 * 1024), "1.0TB");
    assert_eq!(format_bytes(8_000_000_000), "7.5GB");
    assert_eq!(format_bytes(u64::MAX), "16777216.0TB");
}

#[test]
fn byte_rates_stop_at_gigabytes() {
    assert_eq!(format_rate(0), "0B");
    assert_eq!(format_rate(999), "999B");
    assert_eq!(format_rate(2048), "2.0KB");
    assert_eq!(format_rate(1024u64 * 1024 * 1024 * 1024), "1024.0GB");
    assert_eq!(format_rate(u64::MAX), "17179869184.0GB");
}

#[test]
fn byte_counts_round_ties_to_even() {
    assert_eq!(format_bytes(1280), "1.2KB");
    assert_eq!(format_bytes(1792), "1.8KB");
    assert_eq!(format_bytes(1075), "1.0KB");
    assert_eq!(format_bytes(1076), "1.1KB");
}

fn scaled_by_division(bytes: u64, units: &[&str]) -> String {
    let mut size = bytes as f64;
    let mut unit = 0;
    while size >= 1024.0 && unit < units.len() - 1 {
        size /= 1024.0;
        unit += 1;
    }
    if unit == 0 {
        format!("{}{}", size as u64, units[unit])
    } else {
        format!("{:.1}{}", size, units[unit])
    }
}

#[test]
fn byte_counts_agree_with_repeated_division() {
    let byte_units = ["B", "KB", "MB", "GB", "TB"];
    let rate_units = ["B", "KB", "MB", "GB"];
    let mut samples: Vec<u64> = vec![0, 1, 1023, 1024, 1025, 1280, 1792, u64::MAX, u64::MAX - 1];
    for shift in 0..64 {
        let power = 1u64 << shift;
        samples.push(power);
        samples.push(power - 1);
        samples.push(power + 1);
        samples.push(power + power / 2);
        samples.push(power + power / 4);
        samples.push(power.wrapping_mul(5) / 4 + 1);
    }
    let mut state: u64 = 0x2545_f491_4f6c_dd1d;
    for round in 0..4000 {
        state ^= state << 13;
        state ^= state >> 7;
        state ^= state << 17;
        samples.push(state >> (round % 64));
    }
    // counts above 2^53 that lie on or next to a tie of the first decimal
    let tie: u64 = (1u64 << 40) / 20;
    for k in [163_840u64, 163_841, 327_681, 1_000_001, 16_000_001] {
        let base = (2 * k + 1).wrapping_mul(tie);
        for offset in 0..4 {
            samples.push(base.wrapping_add(offset));
            samples.push(base.wrapping_sub(offset));
        }
    }
    for bytes in samples {
        assert_eq!(format_bytes(bytes), scaled_by_division(bytes, &byte_units), "{}", bytes);
        assert_eq!(format_rate(bytes), scaled_by_division(bytes, &rate_units), "{}", bytes);
    }
}

fn from_double(value: f64) -> i64 {
    Fixed::from_double_bits(value.to_bits()).thousandths
}

#[test]
fn doubles_become_the_nearest_thousandth() {
    assert_eq!(from_double(0.0), 0);
    assert_eq!(from_double(-0.0), 0);
    assert_eq!(from_double(1.0), 1000);
    assert_eq!(from_double(-1.0), -1000);
    assert_eq!(from_double(0.5), 500);
    assert_eq!(from_double(0.001), 1);
    assert_eq!(from_double(12.345), 12345);
    assert_eq!(from_double(-12.345), -12345);
    assert_eq!(from_double(99.9995), 99999);
    assert_eq!(from_double(0.0004), 0);
    assert_eq!(from_double(0.0006), 1);
    assert_eq!(from_double(12.5f32 as f64), 12500);
    assert_eq!(from_double(33.3f32 as f64), 33300);
    assert_eq!(from_double(4503599627370496.0), 4_503_599_627_370_496_000);
    assert_eq!(from_double(9.2e15), 9_200_000_000_000_000_000);
}

#[test]
fn doubles_on_a_tie_go_to_the_even_thousandth() {
    assert_eq!(from_double(0.0625), 62);
    assert_eq!(from_double(0.1875), 188);
    assert_eq!(from_double(0.3125), 312);
    assert_eq!(from_double(-0.0625), -62);
    assert_eq!(from_double(-0.1875), -188);
    assert_eq!(from_double(1024.4375), 1_024_438);
    assert_eq!(from_double(1024.5625), 1_024_562);
}

#[test]
fn doubles_out_of_range_are_held_at_the_ends() {
    assert_eq!(from_double(f64::NAN), 0);
    assert_eq!(from_double(-f64::NAN), 0);
    assert_eq!(from_double(f64::INFINITY), i64::MAX);
    assert_eq!(from_double(f64::NEG_INFINITY), i64::MIN);
    assert_eq!(from_double(1e300), i64::MAX);
    assert_eq!(from_double(-1e300), i64::MIN);
    assert_eq!(from_double(f64::MAX), i64::MAX);
    assert_eq!(from_double(f64::MIN), i64::MIN);
    assert_eq!(from_double(9.3e15), i64::MAX);
    assert_eq!(from_double(-9.3e15), i64::MIN);
    assert_eq!(from_double(9223372036854774.0), 9_223_372_036_854_774_000);
    assert_eq!(from_double(-9223372036854774.0), -9_223_372_036_854_774_000);
    assert_eq!(from_double(9223372036854776.0), i64::MAX);
    assert_eq!(from_double(-9223372036854776.0), i64::MIN);
    assert_eq!(from_double(f64::MIN_POSITIVE), 0);
    assert_eq!(from_double(5e-324), 0);
    assert_eq!(from_double(-5e-324), 0);
    assert_eq!(from_double(1e-19), 0);
    assert_eq!(from_double(1e-20), 0);
}

#[test]
fn doubles_written_in_thousandths_come_back() {
    for n in -200_000i64..200_000 {
        assert_eq!(from_double(n as f64 / 1000.0), n);
    }
    let mut n: i64 = 1;
    while n < 4_000_000_000_000_000 {
        assert_eq!(from_double(n as f64 / 1000.0), n, "{}", n);
        assert_eq!(from_double(-(n as f64) / 1000.0), -n, "{}", n);
        n = n * 3 + 1;
    }
}
