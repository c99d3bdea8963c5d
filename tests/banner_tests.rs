use cp::banner::{pad_counts, write_banner};
use cp::decimal::push_decimal;

fn banner_of(mid: &str, width: usize) -> Vec<u8> {
    let mut out = Vec::new();
    write_banner(mid.as_bytes(), width, &mut out);
    out
}

#[test]
fn pad_counts_split_evenly() {
    assert_eq!(pad_counts(80, 10), (33, 33));
}

#[test]
fn pad_counts_put_remainder_right() {
    assert_eq!(pad_counts(81, 10), (33, 34));
    assert_eq!(pad_counts(15, 10), (0, 1));
}

#[test]
fn pad_counts_collapse_when_message_is_too_wide() {
    assert_eq!(pad_counts(10, 6), (0, 0));
    assert_eq!(pad_counts(10, 7), (0, 0));
    assert_eq!(pad_counts(10, 200), (0, 0));
    assert_eq!(pad_counts(0, 0), (0, 0));
}

#[test]
fn pad_counts_follow_the_centering_formula() {
    for width in 0..60usize {
        for len in 0..60usize {
            let (left, right) = pad_counts(width, len);
            if len + 4 < width {
                assert_eq!(left, (width - 4 - len) / 2);
                assert_eq!(left + right, width - 4 - len);
            } else {
                assert_eq!((left, right), (0, 0));
            }
        }
    }
}

#[test]
fn banner_frames_message() {
    assert_eq!(banner_of("ab", 10), b"--> ab <--\n".to_vec());
    assert_eq!(banner_of("abc", 10), b"-> abc <--\n".to_vec());
}

#[test]
fn banner_of_wide_message_has_no_dashes() {
    assert_eq!(banner_of("abcdefgh", 10), b"> abcdefgh <\n".to_vec());
}

#[test]
fn banner_spans_the_frame() {
    let line = banner_of("input1.txt: 12ms", 80);
    assert_eq!(line.len(), 81);
    assert_eq!(line[80], b'\n');
}

#[test]
fn banner_appends_to_existing_output() {
    let mut out = b"xy".to_vec();
    write_banner(b"m", 7, &mut out);
    assert_eq!(out, b"xy-> m <-\n".to_vec());
}

#[test]
fn decimal_digits() {
    let cases: [(u128, &str); 5] = [
        (0, "0"),
        (7, "7"),
        (10, "10"),
        (12345, "12345"),
        (u128::MAX, "340282366920938463463374607431768211455"),
    ];
    for (n, text) in cases {
        let mut out = Vec::new();
        push_decimal(n, &mut out);
        assert_eq!(out, text.as_bytes().to_vec());
    }
}
