//! The checksum service: SHA-256 and SHA-512 digests of finished buffers,
//! rendered as lowercase hex or as URL-safe unpadded base64.
use vstd::prelude::*;
use sha2::Digest;
use base64::Engine;

verus! {

/// The SHA-256 digest of `data`.
pub uninterp spec fn sha256_of(data: Seq<u8>) -> Seq<u8>;

/// The SHA-512 digest of `data`.
pub uninterp spec fn sha512_of(data: Seq<u8>) -> Seq<u8>;

/// The character of the URL-safe base64 alphabet for `n` (`n < 64`):
/// `A`-`Z`, `a`-`z`, `0`-`9`, `-`, `_`.
pub open spec fn base64url_digit(n: nat) -> char {
    seq![
        'A', 'B', 'C', 'D', 'E', 'F', 'G', 'H', 'I', 'J', 'K', 'L', 'M', 'N', 'O', 'P', 'Q', 'R',
        'S', 'T', 'U', 'V', 'W', 'X', 'Y', 'Z', 'a', 'b', 'c', 'd', 'e', 'f', 'g', 'h', 'i', 'j',
        'k', 'l', 'm', 'n', 'o', 'p', 'q', 'r', 's', 't', 'u', 'v', 'w', 'x', 'y', 'z', '0', '1',
        '2', '3', '4', '5', '6', '7', '8', '9', '-', '_',
    ][n as int]
}

/// The URL-safe base64 text of `data`, without padding: each group of three
/// bytes becomes four characters of six bits each, high bits first; a final
/// group of two bytes becomes three characters, of one byte two.
pub open spec fn base64url_of(data: Seq<u8>) -> Seq<char>
    decreases data.len(),
{
    if data.len() == 0 {
        Seq::empty()
    } else if data.len() == 1 {
        let b0 = data[0] as nat;
        seq![base64url_digit(b0 / 4), base64url_digit((b0 % 4) * 16)]
    } else if data.len() == 2 {
        let b0 = data[0] as nat;
        let b1 = data[1] as nat;
        seq![
            base64url_digit(b0 / 4),
            base64url_digit((b0 % 4) * 16 + b1 / 16),
            base64url_digit((b1 % 16) * 4),
        ]
    } else {
        let b0 = data[0] as nat;
        let b1 = data[1] as nat;
        let b2 = data[2] as nat;
        seq![
            base64url_digit(b0 / 4),
            base64url_digit((b0 % 4) * 16 + b1 / 16),
            base64url_digit((b1 % 16) * 4 + b2 / 64),
            base64url_digit(b2 % 64),
        ] + base64url_of(data.skip(3))
    }
}

/// The lowercase hex digit of `n` (`n < 16`).
pub open spec fn hex_digit(n: nat) -> char {
    seq!['0', '1', '2', '3', '4', '5', '6', '7', '8', '9', 'a', 'b', 'c', 'd', 'e', 'f'][n as int]
}

/// Lowercase hex of `b`: two digits per byte, high nibble first.
pub open spec fn hex_lower(b: Seq<u8>) -> Seq<char>
    decreases b.len(),
{
    if b.len() == 0 {
        Seq::empty()
    } else {
        hex_lower(b.drop_last()) + seq![
            hex_digit((b.last() / 16) as nat),
            hex_digit((b.last() % 16) as nat),
        ]
    }
}

/// Hex text has two characters per byte.
pub proof fn lemma_hex_lower_len(b: Seq<u8>)
    ensures
        hex_lower(b).len() == 2 * b.len(),
    decreases b.len(),
{
    if b.len() > 0 {
        lemma_hex_lower_len(b.drop_last());
    }
}

/// Relies on `sha2::Sha256::digest`: the 32-byte SHA-256 digest of the input.
#[verifier::external_body]
fn sha256_bytes(data: &[u8]) -> (r: Vec<u8>)
    ensures
        r@ == sha256_of(data@),
        r@.len() == 32,
{
    sha2::Sha256::digest(data).to_vec()
}

/// Relies on `sha2::Sha512::digest`: the 64-byte SHA-512 digest of the input.
#[verifier::external_body]
fn sha512_bytes(data: &[u8]) -> (r: Vec<u8>)
    ensures
        r@ == sha512_of(data@),
        r@.len() == 64,
{
    sha2::Sha512::digest(data).to_vec()
}

/// Relies on `base16ct::lower::encode_string`: two lowercase hex digits per
/// byte, high nibble first. It panics on inputs over `usize::MAX / 2` bytes.
#[verifier::external_body]
fn hex_encode(data: &[u8]) -> (r: String)
    requires
        data@.len() <= usize::MAX / 2,
    ensures
        r@ == hex_lower(data@),
{
    base16ct::lower::encode_string(data)
}

/// Relies on `base64::engine::general_purpose::URL_SAFE_NO_PAD.encode`:
/// URL-safe alphabet, no padding.
/// It panics where the encoded length overflows `usize`.
#[verifier::external_body]
fn base64url_encode(data: &[u8]) -> (r: String)
    requires
        data@.len() <= usize::MAX / 2,
    ensures
        r@ == base64url_of(data@),
{
    base64::engine::general_purpose::URL_SAFE_NO_PAD.encode(data)
}

/// The SHA-256 digest of `data` as 64 lowercase hex characters.
pub fn sha256_hex(data: &[u8]) -> (r: String)
    ensures
        r@ == hex_lower(sha256_of(data@)),
        r@.len() == 64,
{
    let d = sha256_bytes(data);
    proof { lemma_hex_lower_len(d@); }
    hex_encode(d.as_slice())
}

/// The SHA-512 digest of `data` as 128 lowercase hex characters.
pub fn sha512_hex(data: &[u8]) -> (r: String)
    ensures
        r@ == hex_lower(sha512_of(data@)),
        r@.len() == 128,
{
    let d = sha512_bytes(data);
    proof { lemma_hex_lower_len(d@); }
    hex_encode(d.as_slice())
}

/// The SHA-256 digest of `data` in URL-safe base64 without padding, the form
/// that wheel RECORD files use.
pub fn sha256_base64url(data: &[u8]) -> (r: String)
    ensures
        r@ == base64url_of(sha256_of(data@)),
{
    let d = sha256_bytes(data);
    base64url_encode(d.as_slice())
}

} // verus!
