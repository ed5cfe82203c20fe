//! Wire-protocol behaviour: exact encodings, round trips, the integer
//! on/off flag, and rejection of malformed input.

use cutelights::error::LightError;
use cutelights::integrations::parse_ipv4;
use cutelights::numeral::parse_number;
use cutelights::numeral::u64_to_string;
use cutelights::protocol::decode_response;
use cutelights::protocol::decode_status;
use cutelights::protocol::encode_request;
use cutelights::protocol::encode_status_response;
use cutelights::protocol::AccountTopic;
use cutelights::protocol::DeviceColor;
use cutelights::protocol::DeviceStatus;
use cutelights::protocol::Request;
use cutelights::protocol::RequestMessage;
use cutelights::protocol::Response;

fn sample_status() -> DeviceStatus {
    DeviceStatus {
        on: true,
        brightness: 80,
        color: DeviceColor { r: 10, g: 20, b: 30 },
        color_temperature_kelvin: 3500,
    }
}

#[test]
fn encode_dev_status_request() {
    let s = encode_request(&Request::DevStatus {});
    assert_eq!(s, "{\"msg\":{\"cmd\":\"devStatus\",\"data\":{}}}");
}

#[test]
fn encode_turn_request() {
    let on = encode_request(&Request::Turn { value: 1 });
    assert_eq!(on, "{\"msg\":{\"cmd\":\"turn\",\"data\":{\"value\":1}}}");
    let off = encode_request(&Request::Turn { value: 0 });
    assert_eq!(off, "{\"msg\":{\"cmd\":\"turn\",\"data\":{\"value\":0}}}");
}

#[test]
fn encode_brightness_request() {
    let s = encode_request(&Request::Brightness { value: 80 });
    assert_eq!(s, "{\"msg\":{\"cmd\":\"brightness\",\"data\":{\"value\":80}}}");
}

#[test]
fn encode_color_request() {
    let s = encode_request(&Request::Color { color: DeviceColor { r: 10, g: 20, b: 30 } });
    assert_eq!(
        s,
        "{\"msg\":{\"cmd\":\"colorwc\",\"data\":{\"color\":{\"r\":10,\"g\":20,\"b\":30}}}}"
    );
}

#[test]
fn encode_scan_request() {
    let s = encode_request(&Request::Scan { topic: AccountTopic::Reserve });
    assert_eq!(s, "{\"msg\":{\"cmd\":\"scan\",\"data\":{\"topic\":\"reserve\"}}}");
}

#[test]
fn envelope_encodes_like_its_command() {
    let envelope = RequestMessage { msg: Request::Turn { value: 1 } };
    assert_eq!(envelope.encode(), encode_request(&Request::Turn { value: 1 }));
}

#[test]
fn encoded_requests_are_valid_json() {
    let turn = encode_request(&Request::Turn { value: 1 });
    let v: serde_json::Value = serde_json::from_str(&turn).unwrap();
    assert_eq!(v["msg"]["cmd"], "turn");
    assert_eq!(v["msg"]["data"]["value"], 1);

    let color = encode_request(&Request::Color { color: DeviceColor { r: 10, g: 20, b: 30 } });
    let v: serde_json::Value = serde_json::from_str(&color).unwrap();
    assert_eq!(v["msg"]["cmd"], "colorwc");
    assert_eq!(v["msg"]["data"]["color"]["r"], 10);
    assert_eq!(v["msg"]["data"]["color"]["g"], 20);
    assert_eq!(v["msg"]["data"]["color"]["b"], 30);
}

#[test]
fn encoded_status_is_valid_json() {
    let s = encode_status_response(&sample_status());
    let v: serde_json::Value = serde_json::from_str(&s).unwrap();
    assert_eq!(v["msg"]["cmd"], "devStatus");
    assert_eq!(v["msg"]["data"]["onOff"], 1);
    assert_eq!(v["msg"]["data"]["brightness"], 80);
    assert_eq!(v["msg"]["data"]["color"]["r"], 10);
    assert_eq!(v["msg"]["data"]["colorTemInKelvin"], 3500);
}

#[test]
fn status_round_trip() {
    let st = sample_status();
    let wire = encode_status_response(&st);
    let back = decode_status(&wire).unwrap();
    assert_eq!(back, st);
}

#[test]
fn status_round_trip_extremes() {
    for st in [
        DeviceStatus {
            on: false,
            brightness: 0,
            color: DeviceColor { r: 0, g: 0, b: 0 },
            color_temperature_kelvin: 0,
        },
        DeviceStatus {
            on: true,
            brightness: 255,
            color: DeviceColor { r: 255, g: 255, b: 255 },
            color_temperature_kelvin: 4294967295,
        },
    ] {
        let wire = encode_status_response(&st);
        assert_eq!(decode_status(&wire), Some(st));
    }
}

#[test]
fn on_off_wire_integer() {
    let on = "{\"msg\":{\"cmd\":\"devStatus\",\"data\":{\"onOff\":1,\"brightness\":80,\"color\":{\"r\":10,\"g\":20,\"b\":30},\"colorTemInKelvin\":3500}}}";
    let st = decode_status(on).unwrap();
    assert!(st.on);

    let off = "{\"msg\":{\"cmd\":\"devStatus\",\"data\":{\"onOff\":0,\"brightness\":80,\"color\":{\"r\":10,\"g\":20,\"b\":30},\"colorTemInKelvin\":3500}}}";
    let st = decode_status(off).unwrap();
    assert!(!st.on);
}

#[test]
fn decode_rejects_malformed_input() {
    assert_eq!(decode_status(""), None);
    assert_eq!(decode_status("not json at all"), None);
    // A flag other than 0 or 1.
    assert_eq!(
        decode_status(
            "{\"msg\":{\"cmd\":\"devStatus\",\"data\":{\"onOff\":2,\"brightness\":80,\"color\":{\"r\":10,\"g\":20,\"b\":30},\"colorTemInKelvin\":3500}}}"
        ),
        None
    );
    // A channel out of the 8-bit range.
    assert_eq!(
        decode_status(
            "{\"msg\":{\"cmd\":\"devStatus\",\"data\":{\"onOff\":1,\"brightness\":80,\"color\":{\"r\":256,\"g\":20,\"b\":30},\"colorTemInKelvin\":3500}}}"
        ),
        None
    );
    // Truncated input.
    assert_eq!(decode_status("{\"msg\":{\"cmd\":\"devStatus\",\"data\":{\"onOff\":1"), None);
    // Trailing bytes.
    let mut wire = encode_status_response(&sample_status());
    wire.push(' ');
    assert_eq!(decode_status(&wire), None);
    // A reply to a different command.
    assert_eq!(decode_status("{\"msg\":{\"cmd\":\"scan\",\"data\":{}}}"), None);
}

#[test]
fn decode_response_classifies_errors() {
    let wire = encode_status_response(&sample_status());
    let msg = decode_response(&wire).unwrap();
    match msg.msg {
        Response::DevStatus(st) => assert_eq!(st, sample_status()),
        _ => panic!("expected a devStatus response"),
    }
    let err = decode_response("garbage").unwrap_err();
    assert_eq!(err, LightError::Protocol);
}

#[test]
fn numerals_render_canonically() {
    assert_eq!(u64_to_string(0), "0");
    assert_eq!(u64_to_string(7), "7");
    assert_eq!(u64_to_string(80), "80");
    assert_eq!(u64_to_string(4294967295), "4294967295");
}

#[test]
fn numeral_parse_is_canonical() {
    assert_eq!(parse_number("80", 0), Some((80, 2)));
    assert_eq!(parse_number("80}", 0), Some((80, 2)));
    assert_eq!(parse_number("x80", 1), Some((80, 3)));
    // No digits, and a leading zero.
    assert_eq!(parse_number("x", 0), None);
    assert_eq!(parse_number("007", 0), None);
    // Zero itself is canonical.
    assert_eq!(parse_number("0", 0), Some((0, 1)));
}

#[test]
fn address_parse_accepts_dotted_quads() {
    assert_eq!(parse_ipv4("10.0.0.5"), Ok((10, 0, 0, 5)));
    assert_eq!(parse_ipv4("255.255.255.255"), Ok((255, 255, 255, 255)));
    assert_eq!(parse_ipv4("0.0.0.0"), Ok((0, 0, 0, 0)));
}

#[test]
fn address_parse_rejects_malformed() {
    assert_eq!(parse_ipv4(""), Err(LightError::Config));
    assert_eq!(parse_ipv4("10.0.0"), Err(LightError::Config));
    assert_eq!(parse_ipv4("10.0.0.5.6"), Err(LightError::Config));
    assert_eq!(parse_ipv4("256.0.0.1"), Err(LightError::Config));
    assert_eq!(parse_ipv4("01.2.3.4"), Err(LightError::Config));
    assert_eq!(parse_ipv4("a.b.c.d"), Err(LightError::Config));
    assert_eq!(parse_ipv4("10.0.0.5 "), Err(LightError::Config));
}
