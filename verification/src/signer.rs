//! Time-based HMAC signature for custom-bot webhook requests.
//!
//! The platform's scheme forms the string `"{timestamp}\n{secret}"`, uses it
//! as the HMAC-SHA256 key over an empty message, and transmits the digest in
//! standard padded base64.

use vstd::prelude::*;
use vstd::string::StrSliceExecFns;
use vstd::string::StringSliceAdditionalSpecFns;

use base64::Engine;
use hmac::KeyInit;
use hmac::Mac;

verus! {

/// The decimal digit character, as a byte, for a value below ten.
pub open spec fn digit_byte(n: nat) -> u8 {
    (0x30 + n) as u8
}

/// The decimal digits of `n`, most significant first.
pub open spec fn dec_digits(n: nat) -> Seq<u8>
    decreases n,
{
    if n < 10 {
        seq![digit_byte(n)]
    } else {
        dec_digits(n / 10).push(digit_byte(n % 10))
    }
}

/// Decimal rendering of a signed value: a leading minus sign for negatives.
pub open spec fn dec_signed(n: int) -> Seq<u8> {
    if n >= 0 {
        dec_digits(n as nat)
    } else {
        seq![0x2du8] + dec_digits((-n) as nat)
    }
}

/// The bytes that key the HMAC: the decimal timestamp, a newline, the secret.
pub open spec fn sign_key(timestamp: int, secret: Seq<u8>) -> Seq<u8> {
    dec_signed(timestamp) + seq![0x0au8] + secret
}

/// The HMAC-SHA256 tag over the empty message, keyed by `key`.
pub uninterp spec fn hmac_sha256_empty_msg(key: Seq<u8>) -> Seq<u8>;

/// Standard padded base64 rendering of `bytes`.
pub uninterp spec fn base64_standard(bytes: Seq<u8>) -> Seq<char>;

/// The webhook signature for a timestamp and a secret.
pub open spec fn spec_sign(timestamp: int, secret: Seq<u8>) -> Seq<char> {
    base64_standard(hmac_sha256_empty_msg(sign_key(timestamp, secret)))
}

/// Renders `n` in decimal.
pub fn format_u64(n: u64) -> (r: Vec<u8>)
    ensures
        r@ == dec_digits(n as nat),
    decreases n,
{
    if n < 10 {
        let mut v: Vec<u8> = Vec::new();
        v.push(0x30u8 + n as u8);
        assert(v@ =~= dec_digits(n as nat));
        v
    } else {
        let mut v = format_u64(n / 10);
        v.push(0x30u8 + (n % 10) as u8);
        assert(v@ =~= dec_digits(n as nat));
        v
    }
}

/// Renders `n` in decimal, with a minus sign when negative.
pub fn format_i64(n: i64) -> (r: Vec<u8>)
    ensures
        r@ == dec_signed(n as int),
{
    if n >= 0 {
        format_u64(n as u64)
    } else {
        let mag: u64 = (-(n as i128)) as u64;
        let mut v: Vec<u8> = Vec::new();
        v.push(0x2du8);
        let mut d = format_u64(mag);
        v.append(&mut d);
        assert(v@ =~= dec_signed(n as int));
        v
    }
}

/// Relies on hmac's `Hmac<Sha256>`: `new_from_slice` accepts a key of any
/// length (the implementation hashes long keys down, so it cannot fail), and
/// `finalize` yields the HMAC-SHA256 tag of the data fed so far — here none,
/// so the tag over the empty message. The tag is a pure function of the key
/// and is one SHA-256 digest, 32 bytes, long.
#[verifier::external_body]
fn hmac_sha256_tag(key: &Vec<u8>) -> (r: Vec<u8>)
    ensures
        r@ == hmac_sha256_empty_msg(key@),
        r@.len() == 32,
{
    let mac: hmac::Hmac<sha2::Sha256> =
        hmac::Hmac::new_from_slice(key.as_slice()).expect("HMAC accepts keys of any length");
    mac.finalize().into_bytes().to_vec()
}

/// Relies on base64's `BASE64_STANDARD` engine: the standard alphabet with
/// padding, a pure function of the input, four output characters for every
/// three input bytes (rounded up).
#[verifier::external_body]
fn base64_standard_encode(bytes: &Vec<u8>) -> (r: String)
    ensures
        r@ == base64_standard(bytes@),
        r@.len() == ((bytes@.len() + 2) / 3) * 4,
{
    base64::prelude::BASE64_STANDARD.encode(bytes.as_slice())
}

/// Computes the webhook signature: HMAC-SHA256 keyed by
/// `"{timestamp}\n{secret}"` over the empty message, in standard base64.
pub fn sign(timestamp: i64, secret: &str) -> (r: String)
    ensures
        r@ == spec_sign(timestamp as int, secret.spec_bytes()),
{
    let mut key = format_i64(timestamp);
    key.push(0x0au8);
    let mut sb = secret.as_bytes_vec();
    key.append(&mut sb);
    assert(key@ =~= sign_key(timestamp as int, secret.spec_bytes()));
    let tag = hmac_sha256_tag(&key);
    base64_standard_encode(&tag)
}

/// Law: signing is pure and deterministic — two signatures computed from the
/// same timestamp and the same secret are the same character sequence.
pub proof fn lemma_sign_deterministic(timestamp: int, secret: Seq<u8>, r1: Seq<char>, r2: Seq<char>)
    requires
        r1 == spec_sign(timestamp, secret),
        r2 == spec_sign(timestamp, secret),
    ensures
        r1 == r2,
{
}

proof fn lemma_dec_digits_len(n: nat)
    ensures
        dec_digits(n).len() >= 1,
        n >= 10 ==> dec_digits(n).len() >= 2,
    decreases n,
{
    if n >= 10 {
        lemma_dec_digits_len(n / 10);
    }
}

proof fn lemma_dec_digits_range(n: nat, i: int)
    requires
        0 <= i < dec_digits(n).len(),
    ensures
        0x30 <= dec_digits(n)[i] <= 0x39,
    decreases n,
{
    if n < 10 {
    } else {
        if i < dec_digits(n / 10).len() {
            lemma_dec_digits_range(n / 10, i);
        }
    }
}

proof fn lemma_dec_digits_injective(n1: nat, n2: nat)
    requires
        dec_digits(n1) == dec_digits(n2),
    ensures
        n1 == n2,
    decreases n1,
{
    lemma_dec_digits_len(n1);
    lemma_dec_digits_len(n2);
    if n1 < 10 && n2 < 10 {
        assert(dec_digits(n1)[0] == digit_byte(n1));
        assert(dec_digits(n2)[0] == digit_byte(n2));
    } else if n1 >= 10 && n2 >= 10 {
        let d1 = dec_digits(n1 / 10);
        let d2 = dec_digits(n2 / 10);
        assert(dec_digits(n1).last() == digit_byte(n1 % 10));
        assert(dec_digits(n2).last() == digit_byte(n2 % 10));
        assert(n1 % 10 == n2 % 10);
        assert(d1.len() == d2.len());
        assert forall|i: int| 0 <= i < d1.len() implies d1[i] == d2[i] by {
            assert(dec_digits(n1)[i] == d1[i]);
            assert(dec_digits(n2)[i] == d2[i]);
        }
        assert(d1 =~= d2);
        lemma_dec_digits_injective(n1 / 10, n2 / 10);
    } else {
        assert(false);
    }
}

proof fn lemma_dec_signed_injective(n1: int, n2: int)
    requires
        dec_signed(n1) == dec_signed(n2),
    ensures
        n1 == n2,
{
    lemma_dec_digits_len(if n1 >= 0 { n1 as nat } else { (-n1) as nat });
    lemma_dec_digits_len(if n2 >= 0 { n2 as nat } else { (-n2) as nat });
    if n1 >= 0 && n2 >= 0 {
        lemma_dec_digits_injective(n1 as nat, n2 as nat);
    } else if n1 < 0 && n2 < 0 {
        let d1 = dec_digits((-n1) as nat);
        let d2 = dec_digits((-n2) as nat);
        assert((seq![0x2du8] + d1).len() == 1 + d1.len());
        assert((seq![0x2du8] + d2).len() == 1 + d2.len());
        assert(d1.len() == d2.len());
        assert forall|i: int| 0 <= i < d1.len() implies d1[i] == d2[i] by {
            assert(dec_signed(n1)[i + 1] == d1[i]);
            assert(dec_signed(n2)[i + 1] == d2[i]);
        }
        assert(d1 =~= d2);
        lemma_dec_digits_injective((-n1) as nat, (-n2) as nat);
    } else if n1 >= 0 && n2 < 0 {
        lemma_dec_digits_range(n1 as nat, 0);
        assert(dec_signed(n2)[0] == 0x2du8);
        assert(false);
    } else {
        lemma_dec_digits_range(n2 as nat, 0);
        assert(dec_signed(n1)[0] == 0x2du8);
        assert(false);
    }
}

/// Law: two distinct timestamps never key the HMAC with the same bytes, for
/// any shared secret — the signed messages themselves cannot collide.
pub proof fn lemma_distinct_timestamps_distinct_keys(t1: int, t2: int, secret: Seq<u8>)
    requires
        t1 != t2,
    ensures
        sign_key(t1, secret) != sign_key(t2, secret),
{
    if sign_key(t1, secret) == sign_key(t2, secret) {
        let d1 = dec_signed(t1);
        let d2 = dec_signed(t2);
        assert((d1 + seq![0x0au8] + secret).len() == (d1 + seq![0x0au8]).len() + secret.len());
        assert((d1 + seq![0x0au8]).len() == d1.len() + 1);
        assert((d2 + seq![0x0au8] + secret).len() == (d2 + seq![0x0au8]).len() + secret.len());
        assert((d2 + seq![0x0au8]).len() == d2.len() + 1);
        assert(d1.len() == d2.len());
        assert forall|i: int| 0 <= i < d1.len() implies d1[i] == d2[i] by {
            assert((d1 + seq![0x0au8] + secret)[i] == (d1 + seq![0x0au8])[i]);
            assert((d1 + seq![0x0au8])[i] == d1[i]);
            assert((d2 + seq![0x0au8] + secret)[i] == (d2 + seq![0x0au8])[i]);
            assert((d2 + seq![0x0au8])[i] == d2[i]);
        }
        assert(d1 =~= d2);
        lemma_dec_signed_injective(t1, t2);
    }
}

} // verus!
