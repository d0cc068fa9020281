use rate_limiter::digits::u64_to_dec;
use rate_limiter::key::window_key;

#[test]
fn decimal_rendering() {
    assert_eq!(u64_to_dec(0), "0");
    assert_eq!(u64_to_dec(7), "7");
    assert_eq!(u64_to_dec(10), "10");
    assert_eq!(u64_to_dec(86400), "86400");
    assert_eq!(u64_to_dec(950_400), "950400");
    assert_eq!(u64_to_dec(u64::MAX), "18446744073709551615");
}

#[test]
fn key_format_is_bit_exact() {
    assert_eq!(window_key("alice", 86400), "ratelimit:alice:86400");
    assert_eq!(window_key("api-key-17", 950_400), "ratelimit:api-key-17:950400");
}

#[test]
fn key_with_empty_identity() {
    assert_eq!(window_key("", 0), "ratelimit::0");
}
