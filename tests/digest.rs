use sqlite_dist::digest::{sha256_base64url, sha256_hex, sha512_hex};
use sqlite_dist::gem::{gem_checksum_sha256, gem_checksum_sha512};

#[test]
fn sha256_hex_known_value() {
    assert_eq!(
        sha256_hex(b"abc"),
        "ba7816bf8f01cfea414140de5dae2223b00361a396177a9cb410ff61f20015ad"
    );
    assert_eq!(gem_checksum_sha256(b"abc"), sha256_hex(b"abc"));
}

#[test]
fn sha512_hex_known_value() {
    assert_eq!(
        sha512_hex(b"abc"),
        "ddaf35a193617abacc417349ae20413112e6fa4e89a97ea20a9eeee64b55d39a2192992a274fc1a836ba3c23a3feebbd454d4423643ce80e2a9ac94fa54ca49f"
    );
    assert_eq!(gem_checksum_sha512(b"abc").len(), 128);
}

#[test]
fn sha256_base64url_known_value() {
    assert_eq!(sha256_base64url(b""), "47DEQpj8HBSa-_TImW-5JCeuQeRkm5NMpJWZG3hSuFU");
}

#[test]
fn base64url_short_tails() {
    // a 32-byte digest leaves a two-byte tail: 43 characters, no padding
    let s = sha256_base64url(b"abc");
    assert_eq!(s, "ungWv48Bz-pBQUDeXa4iI7ADYaOWF3qctBD_YfIAFa0");
    assert_eq!(s.len(), 43);
}
