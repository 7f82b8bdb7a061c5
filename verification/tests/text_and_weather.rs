use toolbelt::text::{chars_of, push_decimal, to_decimal};
use toolbelt::weather::config::{Config, API_KEY_VARIABLE};

#[test]
fn decimal_rendering() {
    assert_eq!(to_decimal(0), "0");
    assert_eq!(to_decimal(7), "7");
    assert_eq!(to_decimal(10), "10");
    assert_eq!(to_decimal(1234567890), "1234567890");
    assert_eq!(to_decimal(u64::MAX), u64::MAX.to_string());
    let mut s = "n=".to_string();
    push_decimal(&mut s, 42);
    assert_eq!(s, "n=42");
}

#[test]
fn characters_of_text() {
    assert_eq!(chars_of("añb"), vec!['a', 'ñ', 'b']);
    assert!(chars_of("").is_empty());
}

#[test]
fn weather_settings() {
    let c = Config { api_key: "SECRET-REDACTED".to_string() };
    assert_eq!(c.api_key, "SECRET-REDACTED");
    assert_eq!(API_KEY_VARIABLE, "RAPIDAPI_KEY");
}
