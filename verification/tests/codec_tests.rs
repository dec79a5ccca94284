use borealis::Aurora;
use borealis::Ipv4Address;
use borealis::json::escape_json_string;
use borealis::nanoleaf_json_messages::{decode_select_effect, encode_select_effect, SelectEffect};
use borealis::strutil::fmt_u64;

fn test_session() -> Aurora {
    let addr = Ipv4Address { o0: 192, o1: 168, o2: 1, o3: 19 };
    Aurora::new(&addr, None, &"tok3n".to_string())
}

#[test]
fn select_effect_round_trip_is_the_identity() {
    // Encoding a selection and decoding it back yields the very name that
    // was set, unchanged.
    let aurora = test_session();
    let request = aurora.set_effect_request(&"Forest".to_string());
    let body = request.body.unwrap();
    assert_eq!(body, "{\"select\":\"Forest\"}");
    let echoed = decode_select_effect(&body).unwrap();
    assert_eq!(echoed.select, "Forest");
}

#[test]
fn select_effect_round_trip_keeps_spaces_and_unicode() {
    for name in ["Northern Lights", "Aurore bor\u{00e9}ale \u{2728}", "10% \u{65e5}\u{672c}"] {
        let body = encode_select_effect(&SelectEffect { select: name.to_string() });
        let echoed = decode_select_effect(&body).unwrap();
        assert_eq!(echoed.select, name);
    }
}

#[test]
fn select_effect_round_trip_survives_escaping() {
    // Names that need escaping on the wire still come back letter for letter.
    for name in ["say \"hi\"", "back\\slash", "line\nbreak", "tab\there"] {
        let body = encode_select_effect(&SelectEffect { select: name.to_string() });
        let echoed = decode_select_effect(&body).unwrap();
        assert_eq!(echoed.select, name);
    }
}

#[test]
fn decoding_a_body_without_a_selection_fails() {
    assert!(decode_select_effect("{\"on\":{\"value\":true}}").is_none());
    assert!(decode_select_effect("not json").is_none());
}

#[test]
fn escaping_rewrites_only_what_json_reserves() {
    assert_eq!(escape_json_string("plain name"), "plain name");
    assert_eq!(escape_json_string("say \"hi\""), "say \\\"hi\\\"");
    assert_eq!(escape_json_string("a\\b"), "a\\\\b");
    assert_eq!(escape_json_string("a\nb"), "a\\u000ab");
    assert_eq!(escape_json_string("\u{1f}"), "\\u001f");
    assert_eq!(escape_json_string(""), "");
}

#[test]
fn decimal_formatting_is_exact() {
    assert_eq!(fmt_u64(0), "0");
    assert_eq!(fmt_u64(7), "7");
    assert_eq!(fmt_u64(100), "100");
    assert_eq!(fmt_u64(16021), "16021");
    assert_eq!(fmt_u64(u64::MAX), "18446744073709551615");
}
