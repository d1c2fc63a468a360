use op_zisk::text::{
    contains, decimal_text, hex_quantity_text, is_white_space, parse_bool, parse_usize, same_text,
    split_trimmed, trim, trim_end_matches,
};

#[test]
fn white_space_is_that_of_std() {
    for n in 0..0x11_0000u32 {
        if let Some(c) = char::from_u32(n) {
            assert_eq!(is_white_space(c), c.is_whitespace(), "{n:x}");
        }
    }
}

#[test]
fn contains_is_that_of_std() {
    let texts = ["", "a", "ab", "abab", "proof window exceeded", "héllo wörld", "aaab"];
    let patterns = ["", "a", "b", "ab", "ba", "aab", "proof window", "ö", "world", "abababab"];
    for s in texts {
        for p in patterns {
            assert_eq!(contains(s, p), s.contains(p), "{s} {p}");
        }
    }
}

#[test]
fn trim_is_that_of_std() {
    for s in ["", " ", "a", " a ", "\t a b \u{3000}\n", "\u{a0}x", "x\u{2003}y"] {
        assert_eq!(trim(s), s.trim());
    }
}

#[test]
fn trailing_slashes_go() {
    for s in ["", "/", "//", "http://a/", "http://a//", "http://a", "a/b", "/a"] {
        assert_eq!(trim_end_matches(s, '/'), s.trim_end_matches('/'));
    }
}

#[test]
fn fields_are_trimmed_and_never_blank() {
    assert_eq!(split_trimmed(" a, b ,,\t,c ", ','), vec!["a", "b", "c"]);
    assert_eq!(split_trimmed("", ',').len(), 0);
    assert_eq!(split_trimmed(" , ,", ',').len(), 0);
    assert_eq!(split_trimmed("one", ','), vec!["one"]);
}

#[test]
fn numbers_are_written_as_std_writes_them() {
    for n in [0, 1, 9, 10, 11, 99, 100, 255, 256, 4096, 1_000_000, u64::MAX - 1, u64::MAX] {
        assert_eq!(decimal_text(n), n.to_string());
        assert_eq!(hex_quantity_text(n), format!("0x{n:x}"));
    }
    assert_eq!(hex_quantity_text(255), "0xff");
}

#[test]
fn sizes_are_read_as_std_reads_them() {
    let texts = [
        "", "0", "1", "+7", "-1", "+", " 1", "1 ", "007", "12a", "18446744073709551615",
        "18446744073709551616", "99999999999999999999999999", "٣", "1_000",
    ];
    for s in texts {
        assert_eq!(parse_usize(s), s.parse::<usize>().ok(), "{s}");
    }
}

#[test]
fn written_numbers_are_read_back() {
    for n in [0u64, 5, 10, 123456789] {
        assert_eq!(parse_usize(&decimal_text(n)), Some(n as usize));
    }
}

#[test]
fn truth_values_are_read_as_std_reads_them() {
    for s in ["true", "false", "True", "1", "", " true", "FALSE"] {
        assert_eq!(parse_bool(s), s.parse::<bool>().ok());
    }
}

#[test]
fn texts_are_compared_by_their_characters() {
    assert!(same_text("http", "http"));
    assert!(!same_text("http", "https"));
    assert!(!same_text("", "a"));
    assert!(same_text("", ""));
}
