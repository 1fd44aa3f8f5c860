use badge_protocol::util::{checksum, jdk_hash_code, Counter};

#[test]
fn checksum_test() {
    let result = checksum(&[0x62, 0xC6, 0x01, 0x00, 0x01]);
    assert_eq!(result, 0x2A);
}

#[test]
fn checksum_empty() {
    assert_eq!(checksum(&[]), 0);
}

#[test]
fn checksum_signed_wraparound() {
    // 0x7F + 0x01 wraps the signed accumulator to -128, i.e. 0x80.
    assert_eq!(checksum(&[0x7F, 0x01]), 0x80);
    assert_eq!(checksum(&[0xFF, 0xFF]), 0xFE);
}

#[test]
fn jdk_hash_test_str() {
    let hash_code = jdk_hash_code("🥺");
    assert_eq!(hash_code, 1772796i32);

    let hash_code = jdk_hash_code("aasd🥺fghj🥺kl;;'asd's");
    assert_eq!(hash_code, -1411885244i32);
}

#[test]
fn jdk_hash_ascii() {
    assert_eq!(jdk_hash_code(""), 0);
    assert_eq!(jdk_hash_code("a"), 97);
    assert_eq!(jdk_hash_code("abc"), 96354);
}

#[test]
fn counter_cycle() {
    let mut counter = Counter::new(0, 1, 16);
    for expected in 0..16u8 {
        assert_eq!(counter.next(), expected);
    }
    // After a full period the counter wraps back to its start.
    assert_eq!(counter.next(), 0);
    assert_eq!(counter.next(), 1);
}

#[test]
fn counter_wraps_to_start() {
    let mut counter = Counter::new(3, 5, 16);
    assert_eq!(counter.next(), 3);
    assert_eq!(counter.next(), 8);
    assert_eq!(counter.next(), 13);
    // 13 + 5 reaches the bound, so the counter resets to its start.
    assert_eq!(counter.next(), 3);
}
