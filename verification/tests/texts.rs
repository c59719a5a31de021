use protobench::decimal::{decimal, read_number, signed_decimal};
use protobench::text::{align_left, align_right, join3, repeat, same_text};

#[test]
fn numbers_are_written_in_decimal() {
    assert_eq!(decimal(0), "0");
    assert_eq!(decimal(9), "9");
    assert_eq!(decimal(10), "10");
    assert_eq!(decimal(1_048_576), "1048576");
    assert_eq!(decimal(u64::MAX), u64::MAX.to_string());
    assert_eq!(signed_decimal(-1), "-1");
    assert_eq!(signed_decimal(i64::MIN), i64::MIN.to_string());
    assert_eq!(signed_decimal(1_024_000), "1024000");
}

fn read(text: &str) -> Option<usize> {
    let chars: Vec<char> = text.chars().collect();
    let n = chars.len();
    read_number(&chars, 0, n)
}

#[test]
fn numbers_are_read_as_the_standard_library_reads_them() {
    let max = usize::MAX.to_string();
    let over = format!("{}0", max);
    let texts = [
        "", "+", "-", "0", "7", "007", "+7", "++7", "-7", " 7", "7 ", "7x", "x", "1_000", "\u{fffd}",
        "\u{0661}", max.as_str(), over.as_str(), "18446744073709551616",
    ];
    for text in texts {
        assert_eq!(read(text), text.parse::<usize>().ok(), "{:?}", text);
    }
}

#[test]
fn written_numbers_read_back() {
    for n in [0usize, 1, 10, 99, 100, 10_240, usize::MAX] {
        assert_eq!(read(&decimal(n as u64)), Some(n));
    }
}

#[test]
fn columns_are_filled_as_format_fills_them() {
    for text in ["", "ab", "abcdef", "gr\u{fc}n"] {
        assert_eq!(align_left(text, 5), format!("{:<5}", text));
        assert_eq!(align_right(text, 5), format!("{:>5}", text));
    }
    assert_eq!(repeat("=", 4), "====");
    assert_eq!(repeat("=", 0), "");
    assert_eq!(join3("a", "b", "c"), "abc");
    assert!(same_text("/small", "/small"));
    assert!(!same_text("/small", "/smal"));
}
