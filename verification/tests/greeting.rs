use now_playing::greeting::{append_decimal, greeting};
use now_playing::user::get_current_username;

#[test]
fn greeting_tells_the_time() {
    assert_eq!(greeting(1730000000123), "Hello world from Rust! Current epoch: 1730000000123");
    assert_eq!(greeting(0), "Hello world from Rust! Current epoch: 0");
}

#[test]
fn decimal_digits_are_exact() {
    for value in [0u128, 1, 9, 10, 11, 99, 100, 101, 1000, 65535, 4294967296, u128::MAX] {
        let mut text = String::from("n=");
        append_decimal(&mut text, value);
        assert_eq!(text, format!("n={}", value));
    }
    let mut text = String::new();
    append_decimal(&mut text, 340282366920938463463374607431768211455);
    assert_eq!(text, "340282366920938463463374607431768211455");
}

#[test]
fn user_name_falls_back_in_order() {
    let name = |s: &str| Some(s.to_string());
    assert_eq!(get_current_username(name("alice"), name("bob")), "alice");
    assert_eq!(get_current_username(name("alice"), None), "alice");
    assert_eq!(get_current_username(None, name("bob")), "bob");
    assert_eq!(get_current_username(None, None), "unknown");
    assert_eq!(get_current_username(name(""), name("bob")), "");
}
