use cadmium::config::parse_port;
use cadmium::connection::{render_notification, SendLogId};
use cadmium::otp_service::render_otp_email;
use cadmium::text::{oid_to_hex, parse_object_id, replace_all};

#[test]
fn hex_rendering_is_zero_padded() {
    assert_eq!(oid_to_hex(0), "000000000000000000000000");
    assert_eq!(oid_to_hex(1), "000000000000000000000001");
    assert_eq!(oid_to_hex(0x0123456789abcdef), "000000000123456789abcdef");
}

#[test]
fn hex_rendering_matches_store_form() {
    // the store's 12-byte ids print as 24 lower-case hex digits
    let v: u128 = 0x6578616d706c655f6f696421;
    assert_eq!(oid_to_hex(v), "6578616d706c655f6f696421");
}

#[test]
fn parse_object_id_round_trips() {
    let v: u128 = 0x0f1e2d3c4b5a697887664523;
    let text = oid_to_hex(v);
    assert_eq!(parse_object_id(&text), Some(v));
}

#[test]
fn parse_object_id_accepts_upper_case() {
    assert_eq!(
        parse_object_id("00000000000000000000000A"),
        Some(10)
    );
}

#[test]
fn parse_object_id_rejects_bad_input() {
    assert_eq!(parse_object_id(""), None);
    assert_eq!(parse_object_id("123"), None);
    assert_eq!(parse_object_id("00000000000000000000000g"), None);
    assert_eq!(parse_object_id("0000000000000000000000001"), None);
}

#[test]
fn notification_frame_is_the_fixed_sentence() {
    let frame = render_notification(SendLogId { log_id: 0xabc, app_id: 0x123 });
    assert_eq!(
        frame,
        "New log ID: 000000000000000000000abc and App ID: 000000000000000000000123"
    );
}

#[test]
fn replace_all_rewrites_each_occurrence() {
    assert_eq!(replace_all("a-b-c", "-", "+"), "a+b+c");
    assert_eq!(replace_all("aaa", "aa", "b"), "ba");
    assert_eq!(replace_all("nothing here", "xyz", "!"), "nothing here");
    assert_eq!(replace_all("", "xyz", "!"), "");
    assert_eq!(replace_all("abc", "", "!"), "abc");
}

#[test]
fn otp_template_marker_is_filled() {
    let template = "<p>Your code is {{OTP_CODE}}.</p><p>{{OTP_CODE}}</p>";
    assert_eq!(
        render_otp_email(template, "123456"),
        "<p>Your code is 123456.</p><p>123456</p>"
    );
}

#[test]
fn parse_port_accepts_plain_numbers() {
    assert_eq!(parse_port("8080"), Some(8080));
    assert_eq!(parse_port("0"), Some(0));
    assert_eq!(parse_port("65535"), Some(65535));
    assert_eq!(parse_port("080"), Some(80));
    assert_eq!(parse_port("000000080"), Some(80));
}

#[test]
fn parse_port_rejects_bad_input() {
    assert_eq!(parse_port(""), None);
    assert_eq!(parse_port("65536"), None);
    assert_eq!(parse_port("999999999999"), None);
    assert_eq!(parse_port("12a"), None);
    assert_eq!(parse_port("-1"), None);
    assert_eq!(parse_port(" 80"), None);
}
