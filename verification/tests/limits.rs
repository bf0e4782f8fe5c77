use heimlig::limits::{MAX_CIPHERTEXT_SIZE, MAX_PLAINTEXT_SIZE, MAX_RANDOM_SIZE};

#[test]
fn buffer_limits_are_fixed() {
    assert_eq!(MAX_RANDOM_SIZE, 1500);
    assert_eq!(MAX_PLAINTEXT_SIZE, 1500);
    assert_eq!(MAX_CIPHERTEXT_SIZE, 1500);
}
