use tomato_notify::client::PolybarStyle;
use tomato_notify::text::{decimal_text, read_i32};

#[test]
fn plain_output_is_unchanged() {
    assert_eq!(tomato_notify::client::format("-65".to_string(), false, &PolybarStyle {}), "-65");
    assert_eq!(tomato_notify::client::format("junk".to_string(), false, &PolybarStyle {}), "junk");
}

#[test]
fn polybar_minutes_and_seconds() {
    let st = PolybarStyle {};
    assert_eq!(tomato_notify::client::format("5".to_string(), true, &st), " 00:05");
    assert_eq!(tomato_notify::client::format("-65".to_string(), true, &st), "-01:05");
    assert_eq!(tomato_notify::client::format("1500".to_string(), true, &st), " 25:00");
    assert_eq!(tomato_notify::client::format("+61".to_string(), true, &st), " 01:01");
    assert_eq!(tomato_notify::client::format("0".to_string(), true, &st), " 00:00");
    assert_eq!(tomato_notify::client::format("-0".to_string(), true, &st), " 00:00");
    assert_eq!(tomato_notify::client::format("6000".to_string(), true, &st), " 100:00");
    assert_eq!(tomato_notify::client::format("-2147483648".to_string(), true, &st), "-35791394:08");
}

#[test]
fn polybar_rejects_non_integers() {
    let st = PolybarStyle {};
    assert_eq!(tomato_notify::client::format("".to_string(), true, &st), "");
    assert_eq!(tomato_notify::client::format("abc".to_string(), true, &st), "");
    assert_eq!(tomato_notify::client::format(" 5".to_string(), true, &st), "");
    assert_eq!(tomato_notify::client::format("-".to_string(), true, &st), "");
    assert_eq!(tomato_notify::client::format("2147483648".to_string(), true, &st), "");
}

#[test]
fn decimal_text_and_back() {
    for n in [0i64, 7, 10, -1, -45, 1234567, i64::MAX, i64::MIN] {
        let t = decimal_text(n);
        assert_eq!(t, n.to_string());
    }
    assert_eq!(read_i32("-2147483648"), Some(i32::MIN));
    assert_eq!(read_i32("+12"), Some(12));
    assert_eq!(read_i32("+"), None);
    assert_eq!(read_i32("1_0"), None);
}
