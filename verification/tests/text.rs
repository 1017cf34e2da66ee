use mania::sign::LinuxSignProvider;
use mania::text::{int_error_message, parse_u32, IntErrorKind};

#[test]
fn parse_u32_like_std() {
    for s in ["0", "7", "+7", "0042", "4294967295", "", "+", "-", "-1", "12a", "4294967296",
        "99999999999a", "a99999999999", " 1", "１"] {
        let std_result = s.parse::<u32>().map_err(|e| e.to_string());
        let ours = parse_u32(s).map_err(int_error_message);
        assert_eq!(ours, std_result, "{s:?}");
    }
}

#[test]
fn parse_u32_error_kinds() {
    assert_eq!(parse_u32(""), Err(IntErrorKind::Empty));
    assert_eq!(parse_u32("-5"), Err(IntErrorKind::InvalidDigit));
    assert_eq!(parse_u32("+"), Err(IntErrorKind::InvalidDigit));
    assert_eq!(parse_u32("4294967296"), Err(IntErrorKind::PosOverflow));
    assert_eq!(parse_u32("99999999999a"), Err(IntErrorKind::PosOverflow));
    assert_eq!(parse_u32("+4294967295"), Ok(u32::MAX));
}

#[test]
fn hex_is_lowercase_two_digits_per_byte() {
    let signer = LinuxSignProvider { url: Some("http://localhost".to_string()) };
    assert_eq!(signer.request("c", 1, &[0x00, 0x0f, 0xab, 0xff]).unwrap().src, "000fabff");
    assert_eq!(signer.request("c", 1, &[]).unwrap().src, "");
}
