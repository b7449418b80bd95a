use laser_utils::utils::escape_string;
use laser_utils::utils::gen_hex::{
    get_rand_app_key, get_rand_dev_eui, get_rand_hex_str, is_hex, resolve_hex_str,
    verify_app_key, verify_dev_eui, verify_hex_str,
};

fn upper_hex(s: &str) -> bool {
    s.chars().all(|c| c.is_ascii_digit() || ('A'..='F').contains(&c))
}

#[test]
fn generated_dev_eui_is_sixteen_upper_hex_digits() {
    let s = get_rand_dev_eui();
    assert_eq!(s.len(), 16);
    assert!(upper_hex(&s));
}

#[test]
fn generated_app_key_is_thirty_two_upper_hex_digits() {
    let s = get_rand_app_key();
    assert_eq!(s.len(), 32);
    assert!(upper_hex(&s));
}

#[test]
fn generated_string_has_one_digit_per_four_bits() {
    assert_eq!(get_rand_hex_str(24).len(), 6);
    assert_eq!(get_rand_hex_str(0).len(), 0);
    assert_eq!(get_rand_hex_str(3).len(), 0);
    let s = get_rand_hex_str(252);
    assert_eq!(s.len(), 63);
    assert!(upper_hex(&s));
}

#[test]
fn generated_values_pass_validation() {
    for _ in 0..20 {
        assert!(verify_hex_str(&get_rand_hex_str(64), 64));
        assert!(verify_hex_str(&get_rand_hex_str(128), 128));
        assert!(verify_dev_eui(&get_rand_dev_eui()));
        assert!(verify_app_key(&get_rand_app_key()));
    }
}

#[test]
fn validation_takes_either_case() {
    assert!(verify_dev_eui("0011223344556677"));
    assert!(verify_dev_eui("aAbBcCdDeEfF0099"));
    assert!(verify_app_key("00112233445566778899aabbccddeeff"));
    assert!(verify_app_key("00112233445566778899AABBCCDDEEFF"));
}

#[test]
fn validation_rejects_empty_wrong_length_and_non_hex() {
    assert!(!verify_dev_eui(""));
    assert!(!verify_dev_eui("001122334455667"));
    assert!(!verify_dev_eui("00112233445566778"));
    assert!(!verify_dev_eui("001122334455667g"));
    assert!(!verify_dev_eui("0011 22334455667"));
    assert!(!verify_app_key("0011223344556677"));
    assert!(!verify_app_key(""));
    assert!(!verify_hex_str("not-hex!", 32));
    assert!(verify_hex_str("", 0));
}

#[test]
fn is_hex_checks_characters_only() {
    assert!(is_hex(""));
    assert!(is_hex("0123456789abcdefABCDEF"));
    assert!(!is_hex("hello"));
    assert!(!is_hex("12 34"));
    assert!(!is_hex("é"));
}

#[test]
fn invalid_identifier_is_replaced_by_a_generated_one() {
    let (v, replaced) = resolve_hex_str("not-hex!", 32);
    assert!(replaced);
    assert_eq!(v.len(), 8);
    assert!(upper_hex(&v));
    assert!(verify_hex_str(&v, 32));
}

#[test]
fn valid_identifier_is_kept() {
    let (v, replaced) = resolve_hex_str("deadBEEF", 32);
    assert!(!replaced);
    assert_eq!(v, "deadBEEF");
}

#[test]
fn escape_string_makes_control_characters_visible() {
    assert_eq!(escape_string("OK\r\n".to_string()), "OK\\r\\n");
    assert_eq!(escape_string("a\tb\0c\\d".to_string()), "a\\tb\\0c\\\\d");
    assert_eq!(escape_string("plain é".to_string()), "plain é");
    assert_eq!(escape_string(String::new()), "");
}
