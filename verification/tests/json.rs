use api::envelope::frame_envelope;
use api::json::decimal_string;

#[test]
fn decimal_of_zero_is_one_digit() {
    assert_eq!(decimal_string(0), "0");
}

#[test]
fn decimal_has_no_leading_zero() {
    assert_eq!(decimal_string(7), "7");
    assert_eq!(decimal_string(9), "9");
    assert_eq!(decimal_string(10), "10");
    assert_eq!(decimal_string(99), "99");
    assert_eq!(decimal_string(100), "100");
    assert_eq!(decimal_string(404), "404");
    assert_eq!(decimal_string(1000), "1000");
    assert_eq!(decimal_string(9999), "9999");
    assert_eq!(decimal_string(10000), "10000");
    assert_eq!(decimal_string(60006), "60006");
}

#[test]
fn decimal_of_the_largest_status_has_five_digits() {
    assert_eq!(decimal_string(u16::MAX), "65535");
}

#[test]
fn decimal_reads_back_for_every_number() {
    for n in 0..=u16::MAX {
        assert_eq!(decimal_string(n).parse::<u16>(), Ok(n));
    }
}

#[test]
fn decimal_is_the_json_text_of_every_number() {
    for n in 0..=u16::MAX {
        assert_eq!(decimal_string(n), rocket::serde::json::to_string(&n).unwrap());
    }
}

#[test]
fn frame_puts_the_five_members_in_order() {
    assert_eq!(
        frame_envelope("404", "\"Not Found\"", "\"gone\"", "\"GET\"", "\"/w\""),
        "{\"status\":404,\"error\":\"Not Found\",\"message\":\"gone\",\"method\":\"GET\",\"path\":\"/w\"}"
    );
}

#[test]
fn frame_copies_its_arguments_as_they_are() {
    assert_eq!(
        frame_envelope("", "", "", "", ""),
        "{\"status\":,\"error\":,\"message\":,\"method\":,\"path\":}"
    );
    assert_eq!(
        frame_envelope("a", "b", "c", "d", "e"),
        "{\"status\":a,\"error\":b,\"message\":c,\"method\":d,\"path\":e}"
    );
}
