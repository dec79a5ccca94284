use borealis::Aurora;
use borealis::Ipv4Address;
use borealis::client::{generate_auth_token_request, generate_auth_token_response, Method};
use borealis::error::BorealisError;

fn test_addr() -> Ipv4Address {
    Ipv4Address { o0: 192, o1: 168, o2: 1, o3: 19 }
}

fn test_session() -> Aurora {
    Aurora::new(&test_addr(), None, &"tok3n".to_string())
}

#[test]
fn session_construction_is_pure_and_local() {
    // An unroutable documentation address: construction must still succeed
    // immediately, since it sends nothing.
    let addr = Ipv4Address { o0: 203, o1: 0, o2: 113, o3: 1 };
    let aurora = Aurora::new(&addr, None, &"secret".to_string());
    let request = aurora.get_brightness_request();
    assert_eq!(request.url, "http://203.0.113.1:16021/api/v1/secret/state/brightness");
}

#[test]
fn base_url_uses_default_port() {
    let aurora = test_session();
    let request = aurora.get_effects_request();
    assert_eq!(request.method, Method::Get);
    assert_eq!(request.url, "http://192.168.1.19:16021/api/v1/tok3n/effects/effectsList");
    assert!(request.body.is_none());
}

#[test]
fn base_url_uses_given_port() {
    let aurora = Aurora::new(&test_addr(), Some(8080), &"tok3n".to_string());
    let request = aurora.get_all_panel_info_request();
    assert_eq!(request.method, Method::Get);
    assert_eq!(request.url, "http://192.168.1.19:8080/api/v1/tok3n/");
}

#[test]
fn pairing_request_hits_the_fixed_endpoint() {
    let request = generate_auth_token_request(&test_addr(), None);
    assert_eq!(request.method, Method::Post);
    assert_eq!(request.url, "http://192.168.1.19:16021/api/v1/new");
    assert!(request.body.is_none());
}

#[test]
fn pairing_success_returns_the_minted_token() {
    let r = generate_auth_token_response(200, "{\"auth_token\":\"fresh-token-1\"}");
    assert_eq!(r, Ok("fresh-token-1".to_string()));
}

#[test]
fn pairing_refusal_is_unauthorized_and_yields_no_token() {
    let r = generate_auth_token_response(403, "{\"auth_token\":\"never-kept\"}");
    assert_eq!(r, Err(BorealisError::Unauthorized));
    let r = generate_auth_token_response(401, "");
    assert_eq!(r, Err(BorealisError::Unauthorized));
}

#[test]
fn pairing_success_without_a_token_is_unexpected() {
    let r = generate_auth_token_response(200, "{}");
    assert_eq!(r, Err(BorealisError::UnexpectedStatus(200)));
}

#[test]
fn pairing_other_success_statuses_are_unexpected_not_refusals() {
    // A 204 or 201 is a success without the expected token envelope: an
    // unexpected answer, not a refusal of physical confirmation.
    let r = generate_auth_token_response(204, "");
    assert_eq!(r, Err(BorealisError::UnexpectedStatus(204)));
    let r = generate_auth_token_response(201, "{\"auth_token\":\"stray\"}");
    assert_eq!(r, Err(BorealisError::UnexpectedStatus(201)));
}

#[test]
fn turn_on_and_off_bodies() {
    let aurora = test_session();
    let on = aurora.turn_on_request();
    assert_eq!(on.method, Method::Put);
    assert_eq!(on.url, "http://192.168.1.19:16021/api/v1/tok3n/state");
    assert_eq!(on.body, Some("{\"on\":{\"value\":true}}".to_string()));
    let off = aurora.turn_off_request();
    assert_eq!(off.body, Some("{\"on\":{\"value\":false}}".to_string()));
}

#[test]
fn set_brightness_body_without_duration() {
    let aurora = test_session();
    let request = aurora.set_brightness_request(100, None);
    assert_eq!(request.method, Method::Put);
    assert_eq!(request.url, "http://192.168.1.19:16021/api/v1/tok3n/state");
    assert_eq!(request.body, Some("{\"brightness\":{\"value\":100}}".to_string()));
}

#[test]
fn set_brightness_body_with_duration_in_whole_seconds() {
    let aurora = test_session();
    let request = aurora.set_brightness_request(0, Some(5000));
    assert_eq!(request.body, Some("{\"brightness\":{\"value\":0,\"duration\":5}}".to_string()));
}

#[test]
fn set_brightness_floors_subsecond_durations() {
    let aurora = test_session();
    let subsecond = aurora.set_brightness_request(42, Some(999));
    let zero = aurora.set_brightness_request(42, Some(0));
    assert_eq!(subsecond.body, zero.body);
    assert_eq!(subsecond.body, Some("{\"brightness\":{\"value\":42,\"duration\":0}}".to_string()));
    // Flooring, not rounding: 1999 ms is one second, not two.
    let floored = aurora.set_brightness_request(42, Some(1999));
    assert_eq!(floored.body, Some("{\"brightness\":{\"value\":42,\"duration\":1}}".to_string()));
}

#[test]
fn get_brightness_reads_the_reported_value() {
    let aurora = test_session();
    let r = aurora.get_brightness_response(200, "{\"value\":77,\"max\":100,\"min\":0}");
    assert_eq!(r, Ok(77));
}

#[test]
fn get_brightness_rejects_other_statuses_and_bad_bodies() {
    let aurora = test_session();
    assert_eq!(
        aurora.get_brightness_response(500, "{\"value\":77}"),
        Err(BorealisError::UnexpectedStatus(500))
    );
    assert_eq!(
        aurora.get_brightness_response(200, "{}"),
        Err(BorealisError::UnexpectedStatus(200))
    );
    assert_eq!(
        aurora.get_brightness_response(200, "not json"),
        Err(BorealisError::UnexpectedStatus(200))
    );
}

#[test]
fn get_effects_returns_the_names_in_device_order() {
    let aurora = test_session();
    let r = aurora.get_effects_response(200, "[\"Flames\",\"Northern Lights\",\"Forest\"]");
    assert_eq!(
        r,
        Ok(vec![
            "Flames".to_string(),
            "Northern Lights".to_string(),
            "Forest".to_string(),
        ])
    );
}

#[test]
fn get_effects_answers_empty_on_non_ok_status() {
    let aurora = test_session();
    let r = aurora.get_effects_response(401, "[\"Flames\"]");
    assert_eq!(r, Ok(vec![]));
}

#[test]
fn get_effects_rejects_a_malformed_success_body() {
    let aurora = test_session();
    let r = aurora.get_effects_response(200, "{\"not\":\"a list\"}");
    assert_eq!(r, Err(BorealisError::UnexpectedStatus(200)));
}

#[test]
fn set_effect_then_get_effects_reflects_the_selection() {
    // A stub device that echoes the selection: it reads the "select" member
    // of the request body and serves it back beside the effects list. The
    // selection it reports must be what was set, in whatever order the
    // stub happens to list the effects.
    let aurora = test_session();
    let request = aurora.set_effect_request(&"Forest".to_string());
    let body = request.body.unwrap();
    let orderings = [
        "[\"Flames\",\"Northern Lights\",\"Forest\"]",
        "[\"Forest\",\"Flames\",\"Northern Lights\"]",
    ];
    for listing in orderings {
        let echoed = borealis::nanoleaf_json_messages::decode_select_effect(&body).unwrap();
        assert_eq!(echoed.select, "Forest");
        let names = aurora.get_effects_response(200, listing).unwrap();
        assert!(names.contains(&echoed.select));
    }
}

#[test]
fn get_name_reads_the_friendly_name() {
    let aurora = test_session();
    let envelope = "{\"name\":\"Living Room\",\"serialNo\":\"S1\",\"firmwareVersion\":\"2.0.1\"}";
    let r = aurora.get_name_response(200, envelope);
    assert_eq!(r, Ok("Living Room".to_string()));
}

#[test]
fn get_name_answers_empty_string_on_unauthorized_status() {
    let aurora = test_session();
    let r = aurora.get_name_response(401, "");
    assert_eq!(r, Ok("".to_string()));
}

#[test]
fn get_firmware_version_reads_the_revision() {
    let aurora = test_session();
    let envelope = "{\"name\":\"Living Room\",\"firmwareVersion\":\"1.5.0\"}";
    let r = aurora.get_firmware_version_response(200, envelope);
    assert_eq!(r, Ok("1.5.0".to_string()));
}

#[test]
fn get_firmware_version_rejects_other_statuses() {
    let aurora = test_session();
    let r = aurora.get_firmware_version_response(404, "");
    assert_eq!(r, Err(BorealisError::UnexpectedStatus(404)));
}

#[test]
fn state_changes_accept_any_success_status() {
    let aurora = test_session();
    assert_eq!(aurora.put_response(200), Ok(()));
    assert_eq!(aurora.put_response(204), Ok(()));
    assert_eq!(aurora.put_response(400), Err(BorealisError::UnexpectedStatus(400)));
}

#[test]
fn identify_never_fails_on_a_status() {
    let aurora = test_session();
    let request = aurora.identify_request();
    assert_eq!(request.url, "http://192.168.1.19:16021/api/v1/tok3n/identify");
    assert_eq!(aurora.identify_response(500), Ok(()));
    assert_eq!(aurora.identify_response(200), Ok(()));
}
