//! Decimal rendering and header parsing, directly.

use ip_api_client::text::parse_u8;
use ip_api_client::text::u32_to_dec;

#[test]
fn renders_zero() {
    assert_eq!(u32_to_dec(0), "0");
}

#[test]
fn renders_mask_values() {
    assert_eq!(u32_to_dec(32768), "32768");
    assert_eq!(u32_to_dec(66830335), "66830335");
    assert_eq!(u32_to_dec(4294967295), "4294967295");
}

#[test]
fn parses_like_std() {
    for s in ["0", "7", "007", "+7", "255", "256", "", "+", "-1", "1.5", " 7", "a7"] {
        assert_eq!(parse_u8(s), s.parse::<u8>().ok(), "input {:?}", s);
    }
}
