use tmprocs::number;

#[test]
fn writes_decimal() {
    for n in [0u32, 1, 9, 10, 42, 99, 100, 4096, 4194304, u32::MAX] {
        assert_eq!(number::decimal_text(n), n.to_string());
        assert_eq!(number::parse_u32(&number::decimal_text(n)), Some(n));
    }
}

#[test]
fn writes_signed_decimal() {
    for n in [0i32, 1, -1, 127, -127, i32::MAX, i32::MIN] {
        assert_eq!(number::signed_decimal_text(n), n.to_string());
    }
}

#[test]
fn reads_what_std_reads() {
    for s in [
        "", "+", "-", "0", "00", "+7", "++7", "-7", " 7", "7 ", "4294967295", "4294967296",
        "99999999999999999999", "1a", "a1", "٣", "00000000000000000001",
    ] {
        assert_eq!(number::parse_u32(s), s.parse::<u32>().ok(), "{s:?}");
    }
}
