use cargo_spdx::checksum::calculate_checksums;
use cargo_spdx::checksum::Algorithm;
use sha1::Digest;

#[test]
fn checksums_of_empty_content() {
    let sums = calculate_checksums(b"");
    assert_eq!(sums.len(), 2);
    assert_eq!(sums[0].algorithm, Algorithm::SHA1);
    assert_eq!(sums[0].value, "da39a3ee5e6b4b0d3255bfef95601890afd80709");
    assert_eq!(sums[1].algorithm, Algorithm::SHA256);
    assert_eq!(
        sums[1].value,
        "e3b0c44298fc1c149afbf4c8996fb92427ae41e4649b934ca495991b7852b855"
    );
}

#[test]
fn checksums_of_known_content() {
    let sums = calculate_checksums(b"abc");
    assert_eq!(sums[0].value, "a9993e364706816aba3e25717850c26c9cd0d89d");
    assert_eq!(
        sums[1].value,
        "ba7816bf8f01cfea414140de5dae2223b00361a396177a9cb410ff61f20015ad"
    );
}

#[test]
fn checksums_are_deterministic() {
    let first = calculate_checksums(b"some file content");
    let second = calculate_checksums(b"some file content");
    assert_eq!(first[0].value, second[0].value);
    assert_eq!(first[1].value, second[1].value);
}

#[test]
fn checksums_have_mandated_shape() {
    let sums = calculate_checksums(b"shape check");
    assert_eq!(sums.len(), 2);
    assert_eq!(sums[0].value.len(), 40);
    assert_eq!(sums[1].value.len(), 64);
    for sum in &sums {
        for c in sum.value.chars() {
            assert!(c.is_ascii_hexdigit() && !c.is_ascii_uppercase());
        }
    }
}

#[test]
fn checksums_match_reference_implementations() {
    let data: &[u8] = b"cross-check against the hashers directly";
    let sums = calculate_checksums(data);
    let sha1_expected = hex::encode(sha1::Sha1::digest(data));
    let sha256_expected = hex::encode(sha2::Sha256::digest(data));
    assert_eq!(sums[0].value, sha1_expected);
    assert_eq!(sums[1].value, sha256_expected);
}
