use std::time::{SystemTime, UNIX_EPOCH};
use user_store::utils::{generate_token, hash_password, token_for};

#[test]
fn hash_password_puts_the_prefix_before_the_password() {
    assert_eq!(hash_password("secret"), "hashed_secret");
    assert_eq!(hash_password(""), "hashed_");
    assert_eq!(hash_password("p\u{00E4}ss w\u{00F6}rd"), "hashed_p\u{00E4}ss w\u{00F6}rd");
    assert_eq!(hash_password("hashed_x"), "hashed_hashed_x");
}

#[test]
fn token_for_writes_the_seconds_in_decimal() {
    assert_eq!(token_for(0), "token_0");
    assert_eq!(token_for(7), "token_7");
    assert_eq!(token_for(10), "token_10");
    assert_eq!(token_for(42), "token_42");
    assert_eq!(token_for(1009), "token_1009");
    assert_eq!(token_for(1_700_000_000), "token_1700000000");
    assert_eq!(token_for(u64::MAX), "token_18446744073709551615");
}

#[test]
fn token_for_agrees_with_decimal_formatting() {
    let mut n: u64 = 1;
    for _ in 0..64 {
        assert_eq!(token_for(n), format!("token_{}", n));
        assert_eq!(token_for(n - 1), format!("token_{}", n - 1));
        n = n.wrapping_mul(3).wrapping_add(n >> 3) | 1;
    }
}

#[test]
fn generate_token_stamps_the_present_time() {
    let before = SystemTime::now().duration_since(UNIX_EPOCH).unwrap().as_secs();
    let token = generate_token().unwrap();
    let after = SystemTime::now().duration_since(UNIX_EPOCH).unwrap().as_secs();
    let digits = token.strip_prefix("token_").unwrap();
    assert!(!digits.is_empty());
    assert!(digits.chars().all(|c| c.is_ascii_digit()));
    let seconds: u64 = digits.parse().unwrap();
    assert!(before <= seconds && seconds <= after);
    assert_eq!(token, token_for(seconds));
}
