use feishu_sdk::signer::{format_i64, format_u64, sign};

#[test]
fn format_decimal() {
    assert_eq!(format_u64(0), b"0".to_vec());
    assert_eq!(format_u64(9), b"9".to_vec());
    assert_eq!(format_u64(10), b"10".to_vec());
    assert_eq!(format_u64(1700000000), b"1700000000".to_vec());
    assert_eq!(format_u64(u64::MAX), b"18446744073709551615".to_vec());
    assert_eq!(format_i64(-1), b"-1".to_vec());
    assert_eq!(format_i64(i64::MIN), b"-9223372036854775808".to_vec());
    assert_eq!(format_i64(42), b"42".to_vec());
}

#[test]
fn sign_golden_vector() {
    // HMAC-SHA256 keyed by "1700000000\nabcd" over the empty message, in
    // standard padded base64.
    let s = sign(1700000000, "abcd");
    assert_eq!(s, "fP/wRIUdMK0o5AfPUtMjazHh4qD9zx1KyK+Eyqwxbo8=");
}

#[test]
fn sign_deterministic() {
    let a = sign(1700000000, "abcd");
    let b = sign(1700000000, "abcd");
    assert_eq!(a, b);
    let c = sign(-5, "secret");
    let d = sign(-5, "secret");
    assert_eq!(c, d);
}

#[test]
fn sign_distinct_timestamps_differ() {
    let a = sign(1700000000, "abcd");
    let b = sign(1700000001, "abcd");
    assert_ne!(a, b);
    assert_eq!(b, "0ebJ14uY/Mzh4zDdGTHHYwZOnom3Ddf7J+O+FAmCQuY=");
}

#[test]
fn sign_empty_secret() {
    let a = sign(0, "");
    let b = sign(0, "");
    assert_eq!(a, b);
    assert_eq!(a.len(), 44);
}
