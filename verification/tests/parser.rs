use chirpstack_ingest::{ChirpStackParser, Frame, ParseError, MAX_MQTT_PAYLOAD_SIZE};

#[test]
fn test_chirpstack_parser() {
    let parser = ChirpStackParser::new();

    let payload = r#"{
        "time": "2025-11-26T06:14:58.501022+00:00",
        "deviceInfo": {
            "devEui": "0123456789abcdef",
            "deviceName": "test-sensor",
            "applicationId": "test-app-id",
            "applicationName": "test-app"
        },
        "fPort": 1,
        "fCnt": 42,
        "confirmed": false,
        "adr": true,
        "dr": 5,
        "rxInfo": [{
            "gatewayId": "gateway-001",
            "rssi": -50,
            "snr": 10.5,
            "channel": 0,
            "rfChain": 0
        }],
        "txInfo": {
            "frequency": 868100000
        },
        "object": {
            "temperature": 22.5,
            "humidity": 60.0
        },
        "data": "AQIDBAUGBwg="
    }"#;

    let topic = "application/test-app/device/0123456789abcdef/event/up";
    let frame = parser
        .parse_message(topic, payload.as_bytes())
        .unwrap()
        .unwrap();

    match frame {
        Frame::Uplink(uplink) => {
            assert_eq!(uplink.dev_eui.as_str(), "0123456789abcdef");
            assert_eq!(uplink.f_port, 1);
            assert_eq!(uplink.f_cnt, 42);
            assert_eq!(uplink.rx_info.len(), 1);
            assert!(uplink.decoded_payload.is_some());
        }
        _ => panic!("Expected Uplink frame"),
    }
}

#[test]
fn test_chirpstack_parser_missing_rx_metadata() {
    let parser = ChirpStackParser::new();

    // Missing snr, rssi, and gatewayId fields on the reception record.
    let payload = r#"{
        "time": "2025-11-28T05:38:55.546236991+00:00",
        "deviceInfo": {
            "devEui": "ff00000000009523",
            "deviceName": "test-device",
            "applicationId": "test-app-id",
            "applicationName": "test-app"
        },
        "fPort": 2,
        "fCnt": 100,
        "confirmed": false,
        "adr": false,
        "dr": 3,
        "rxInfo": [{
            "channel": 1,
            "rfChain": 0
        }],
        "txInfo": {
            "frequency": 915000000
        },
        "object": {
            "sensor": "value"
        }
    }"#;

    let topic = "application/test-app/device/ff00000000009523/event/up";
    let result = parser.parse_message(topic, payload.as_bytes());

    assert!(result.is_ok(), "Parser should handle missing rx metadata fields");

    let frame = result.unwrap().unwrap();
    match frame {
        Frame::Uplink(uplink) => {
            assert_eq!(uplink.dev_eui.as_str(), "ff00000000009523");
            assert_eq!(uplink.f_port, 2);
            assert_eq!(uplink.f_cnt, 100);
            assert_eq!(uplink.rx_info.len(), 1);

            // Verify default values are used; an SNR of 0.0 is the decimal
            // text "0" in the canonical model.
            assert_eq!(uplink.rx_info[0].gateway_id.as_str(), "unknown");
            assert_eq!(uplink.rx_info[0].rssi, 0);
            assert_eq!(uplink.rx_info[0].snr, "0");
            assert_eq!(uplink.rx_info[0].channel, 1);
        }
        _ => panic!("Expected Uplink frame"),
    }
}

#[test]
fn test_irrelevant_topic_ignores_payload() {
    let parser = ChirpStackParser::new();
    // Not an uplink-event topic: the payload is never decoded, so even
    // invalid JSON yields "not applicable".
    let r = parser.parse_message("application/test-app/device/abc/event/down", b"{not json");
    assert!(matches!(r, Ok(None)));
    let r = parser.parse_message("", b"");
    assert!(matches!(r, Ok(None)));
}

#[test]
fn test_oversize_payload_rejected_before_decode() {
    let parser = ChirpStackParser::new();
    let big = vec![b'x'; MAX_MQTT_PAYLOAD_SIZE + 1];
    let r = parser.parse_message("application/a/device/b/event/up", &big);
    match r {
        Err(ParseError::OversizePayload { size, limit }) => {
            assert_eq!(size, MAX_MQTT_PAYLOAD_SIZE + 1);
            assert_eq!(limit, MAX_MQTT_PAYLOAD_SIZE);
        }
        _ => panic!("Expected OversizePayload"),
    }
}

#[test]
fn test_malformed_json_rejected() {
    let parser = ChirpStackParser::new();
    let r = parser.parse_message("application/a/device/b/event/up", b"{not json");
    assert!(matches!(r, Err(ParseError::MalformedJson(_))));
}

#[test]
fn test_missing_required_fields_rejected() {
    let parser = ChirpStackParser::new();
    let topic = "application/a/device/b/event/up";
    // A structurally valid but empty object fails only on the missing
    // required device identity.
    assert!(matches!(
        parser.parse_message(topic, b"{}"),
        Err(ParseError::MalformedJson(_))
    ));
    let no_eui = r#"{"deviceInfo": {"applicationId": "app"}}"#;
    assert!(matches!(
        parser.parse_message(topic, no_eui.as_bytes()),
        Err(ParseError::MalformedJson(_))
    ));
    let no_app = r#"{"deviceInfo": {"devEui": "0123456789abcdef"}}"#;
    assert!(matches!(
        parser.parse_message(topic, no_app.as_bytes()),
        Err(ParseError::MalformedJson(_))
    ));
}

#[test]
fn test_wrong_typed_fields_rejected() {
    let parser = ChirpStackParser::new();
    let topic = "application/a/device/b/event/up";
    let bad_port = r#"{
        "deviceInfo": {"devEui": "0123456789abcdef", "applicationId": "app"},
        "fPort": "one"
    }"#;
    assert!(matches!(
        parser.parse_message(topic, bad_port.as_bytes()),
        Err(ParseError::MalformedJson(_))
    ));
    let port_out_of_range = r#"{
        "deviceInfo": {"devEui": "0123456789abcdef", "applicationId": "app"},
        "fPort": 300
    }"#;
    assert!(matches!(
        parser.parse_message(topic, port_out_of_range.as_bytes()),
        Err(ParseError::MalformedJson(_))
    ));
    let bad_rx = r#"{
        "deviceInfo": {"devEui": "0123456789abcdef", "applicationId": "app"},
        "rxInfo": 5
    }"#;
    assert!(matches!(
        parser.parse_message(topic, bad_rx.as_bytes()),
        Err(ParseError::MalformedJson(_))
    ));
}

#[test]
fn test_invalid_dev_eui_rejected() {
    let parser = ChirpStackParser::new();
    let topic = "application/a/device/b/event/up";
    let short_eui = r#"{"deviceInfo": {"devEui": "0123", "applicationId": "app"}}"#;
    match parser.parse_message(topic, short_eui.as_bytes()) {
        Err(ParseError::InvalidIdentity(s)) => assert_eq!(s, "0123"),
        _ => panic!("Expected InvalidIdentity"),
    }
    let non_hex = r#"{"deviceInfo": {"devEui": "0123456789abcdeg", "applicationId": "app"}}"#;
    match parser.parse_message(topic, non_hex.as_bytes()) {
        Err(ParseError::InvalidIdentity(s)) => assert_eq!(s, "0123456789abcdeg"),
        _ => panic!("Expected InvalidIdentity"),
    }
}

#[test]
fn test_minimal_payload_yields_defaults() {
    let parser = ChirpStackParser::new();
    let topic = "application/a/device/b/event/up";
    let minimal = r#"{"deviceInfo": {"devEui": "0123456789abcdef", "applicationId": "app-1"}}"#;
    let frame = parser.parse_message(topic, minimal.as_bytes()).unwrap().unwrap();
    match frame {
        Frame::Uplink(uplink) => {
            assert_eq!(uplink.dev_eui.as_str(), "0123456789abcdef");
            assert_eq!(uplink.application_id.as_str(), "app-1");
            assert!(uplink.device_name.is_none());
            assert!(uplink.received_at > 0);
            assert_eq!(uplink.f_port, 0);
            assert_eq!(uplink.f_cnt, 0);
            assert!(!uplink.confirmed);
            assert!(!uplink.adr);
            assert_eq!(uplink.dr.bandwidth, 125000);
            assert_eq!(uplink.dr.spreading_factor, 0);
            assert_eq!(uplink.frequency, 0);
            assert_eq!(uplink.rx_info.len(), 0);
            assert!(uplink.decoded_payload.is_none());
            assert!(uplink.raw_payload.is_none());
        }
        _ => panic!("Expected Uplink frame"),
    }
}

#[test]
fn test_null_optional_fields_treated_as_absent() {
    let parser = ChirpStackParser::new();
    let topic = "application/a/device/b/event/up";
    let payload = r#"{
        "deviceInfo": {"devEui": "0123456789abcdef", "applicationId": "app-1",
                       "deviceName": null},
        "fPort": null,
        "time": null
    }"#;
    let frame = parser.parse_message(topic, payload.as_bytes()).unwrap().unwrap();
    match frame {
        Frame::Uplink(uplink) => {
            assert!(uplink.device_name.is_none());
            assert_eq!(uplink.f_port, 0);
        }
        _ => panic!("Expected Uplink frame"),
    }
}

#[test]
fn test_full_payload_passes_fields_through() {
    let parser = ChirpStackParser::new();
    let topic = "application/test-app/device/0123456789abcdef/event/up";
    let payload = r#"{
        "time": "2025-11-26T06:14:58.501022+00:00",
        "deviceInfo": {
            "devEui": "0123456789abcdef",
            "deviceName": "test-sensor",
            "applicationId": "test-app-id",
            "applicationName": "test-app"
        },
        "devAddr": "01020304",
        "fPort": 1,
        "fCnt": 42,
        "confirmed": false,
        "adr": true,
        "dr": 5,
        "rxInfo": [{
            "gatewayId": "gateway-001",
            "rssi": -50,
            "snr": 10.5,
            "channel": 3,
            "rfChain": 1,
            "location": {"latitude": 52.5, "longitude": 13.4, "altitude": 34.0}
        }],
        "txInfo": {"frequency": 868100000},
        "object": {"temperature": 22.5},
        "data": "AQIDBAUGBwg="
    }"#;
    let frame = parser.parse_message(topic, payload.as_bytes()).unwrap().unwrap();
    match frame {
        Frame::Uplink(uplink) => {
            // The human-readable application name wins over the raw id.
            assert_eq!(uplink.application_id.as_str(), "test-app");
            assert_eq!(uplink.device_name.as_deref(), Some("test-sensor"));
            // 2025-11-26T06:14:58.501022Z as microseconds since the epoch.
            assert_eq!(uplink.received_at, 1764137698501022);
            assert_eq!(uplink.f_port, 1);
            assert_eq!(uplink.f_cnt, 42);
            assert!(!uplink.confirmed);
            assert!(uplink.adr);
            assert_eq!(uplink.dr.bandwidth, 125000);
            assert_eq!(uplink.dr.spreading_factor, 5);
            assert_eq!(uplink.frequency, 868100000);
            assert_eq!(uplink.rx_info.len(), 1);
            assert_eq!(uplink.rx_info[0].gateway_id.as_str(), "gateway-001");
            assert_eq!(uplink.rx_info[0].rssi, -50);
            assert_eq!(uplink.rx_info[0].snr, "10.5");
            assert_eq!(uplink.rx_info[0].channel, 3);
            assert_eq!(uplink.rx_info[0].rf_chain, 1);
            let loc = uplink.rx_info[0].location.as_ref().unwrap();
            assert_eq!(loc.latitude, "52.5");
            assert_eq!(loc.longitude, "13.4");
            assert_eq!(loc.altitude.as_deref(), Some("34.0"));
            assert!(uplink.decoded_payload.is_some());
            assert_eq!(uplink.raw_payload.as_deref(), Some("AQIDBAUGBwg="));
        }
        _ => panic!("Expected Uplink frame"),
    }
}

#[test]
fn test_location_needs_both_coordinates() {
    let parser = ChirpStackParser::new();
    let topic = "application/a/device/b/event/up";
    let payload = r#"{
        "deviceInfo": {"devEui": "0123456789abcdef", "applicationId": "app"},
        "rxInfo": [
            {"location": {"latitude": 52.5}},
            {"location": {"longitude": 13.4}},
            {"location": {"latitude": 52.5, "longitude": 13.4}},
            {"location": {"altitude": 10.0}}
        ]
    }"#;
    let frame = parser.parse_message(topic, payload.as_bytes()).unwrap().unwrap();
    match frame {
        Frame::Uplink(uplink) => {
            assert_eq!(uplink.rx_info.len(), 4);
            assert!(uplink.rx_info[0].location.is_none());
            assert!(uplink.rx_info[1].location.is_none());
            let loc = uplink.rx_info[2].location.as_ref().unwrap();
            assert_eq!(loc.latitude, "52.5");
            assert_eq!(loc.longitude, "13.4");
            assert!(loc.altitude.is_none());
            assert!(uplink.rx_info[3].location.is_none());
        }
        _ => panic!("Expected Uplink frame"),
    }
}

#[test]
fn test_unparsable_time_falls_back_to_now() {
    let parser = ChirpStackParser::new();
    let topic = "application/a/device/b/event/up";
    let payload = r#"{
        "deviceInfo": {"devEui": "0123456789abcdef", "applicationId": "app"},
        "time": "yesterday around noon"
    }"#;
    let frame = parser.parse_message(topic, payload.as_bytes()).unwrap().unwrap();
    match frame {
        Frame::Uplink(uplink) => {
            // 2020-01-01T00:00:00Z in microseconds: the fallback is "now",
            // which is certainly after that.
            assert!(uplink.received_at > 1_577_836_800_000_000);
        }
        _ => panic!("Expected Uplink frame"),
    }
}

#[test]
fn test_extract_dev_eui() {
    let parser = ChirpStackParser::new();
    assert_eq!(
        parser.extract_dev_eui("application/test-app/device/abc123/event/up"),
        Some("abc123".to_string())
    );
    assert_eq!(
        parser.extract_dev_eui("application/test-app/device/0123456789abcdef/event/up"),
        Some("0123456789abcdef".to_string())
    );
    // Fewer than four segments: no device identifier.
    assert_eq!(parser.extract_dev_eui("application/test-app/device"), None);
    assert_eq!(parser.extract_dev_eui(""), None);
    // The segment after the third slash may be empty.
    assert_eq!(parser.extract_dev_eui("a/b/c/"), Some("".to_string()));
}

#[test]
fn test_integer_snr_keeps_integer_text() {
    let parser = ChirpStackParser::new();
    let topic = "application/a/device/b/event/up";
    let payload = r#"{
        "deviceInfo": {"devEui": "0123456789abcdef", "applicationId": "app"},
        "rxInfo": [{"snr": 7, "rssi": -101}]
    }"#;
    let frame = parser.parse_message(topic, payload.as_bytes()).unwrap().unwrap();
    match frame {
        Frame::Uplink(uplink) => {
            assert_eq!(uplink.rx_info[0].snr, "7");
            assert_eq!(uplink.rx_info[0].rssi, -101);
        }
        _ => panic!("Expected Uplink frame"),
    }
}

#[test]
fn test_default_parser_behaves_like_new() {
    let parser = ChirpStackParser::default();
    assert!(matches!(parser.parse_message("x/y", b"not even json"), Ok(None)));
}

#[test]
fn test_topic_marker_detection() {
    assert!(chirpstack_ingest::topic_has_uplink_marker(
        "application/a/device/b/event/up"
    ));
    assert!(chirpstack_ingest::topic_has_uplink_marker("/event/up"));
    assert!(!chirpstack_ingest::topic_has_uplink_marker(
        "application/a/device/b/event/join"
    ));
    assert!(!chirpstack_ingest::topic_has_uplink_marker("event/up"));
    assert!(!chirpstack_ingest::topic_has_uplink_marker(""));
}

#[test]
fn test_nth_segment() {
    assert_eq!(
        chirpstack_ingest::nth_segment("a/b/c/d/e", 0),
        Some("a".to_string())
    );
    assert_eq!(
        chirpstack_ingest::nth_segment("a/b/c/d/e", 4),
        Some("e".to_string())
    );
    assert_eq!(chirpstack_ingest::nth_segment("a/b/c/d/e", 5), None);
    assert_eq!(
        chirpstack_ingest::nth_segment("//x", 1),
        Some("".to_string())
    );
}

#[test]
fn test_uppercase_dev_eui_accepted() {
    let parser = ChirpStackParser::new();
    let topic = "application/a/device/b/event/up";
    let payload = r#"{"deviceInfo": {"devEui": "0123456789ABCDEF", "applicationId": "app"}}"#;
    let frame = parser.parse_message(topic, payload.as_bytes()).unwrap().unwrap();
    match frame {
        Frame::Uplink(uplink) => assert_eq!(uplink.dev_eui.as_str(), "0123456789ABCDEF"),
        _ => panic!("Expected Uplink frame"),
    }
}

#[test]
fn test_null_on_flag_fields_rejected() {
    let parser = ChirpStackParser::new();
    let topic = "application/a/device/b/event/up";
    // confirmed, adr, channel, rfChain and rxInfo have non-optional wire
    // slots: an explicit null is a wrong type there, not an absence.
    let null_confirmed = r#"{
        "deviceInfo": {"devEui": "0123456789abcdef", "applicationId": "app"},
        "confirmed": null
    }"#;
    assert!(matches!(
        parser.parse_message(topic, null_confirmed.as_bytes()),
        Err(ParseError::MalformedJson(_))
    ));
    let null_rx = r#"{
        "deviceInfo": {"devEui": "0123456789abcdef", "applicationId": "app"},
        "rxInfo": null
    }"#;
    assert!(matches!(
        parser.parse_message(topic, null_rx.as_bytes()),
        Err(ParseError::MalformedJson(_))
    ));
    let null_channel = r#"{
        "deviceInfo": {"devEui": "0123456789abcdef", "applicationId": "app"},
        "rxInfo": [{"channel": null}]
    }"#;
    assert!(matches!(
        parser.parse_message(topic, null_channel.as_bytes()),
        Err(ParseError::MalformedJson(_))
    ));
}

#[test]
fn test_wrong_typed_unused_fields_rejected() {
    let parser = ChirpStackParser::new();
    let topic = "application/a/device/b/event/up";
    // Fields that are decoded but never mapped still reject wrong types.
    let bad_dedup = r#"{
        "deviceInfo": {"devEui": "0123456789abcdef", "applicationId": "app"},
        "deduplicationId": 5
    }"#;
    assert!(matches!(
        parser.parse_message(topic, bad_dedup.as_bytes()),
        Err(ParseError::MalformedJson(_))
    ));
    let bad_profile = r#"{
        "deviceInfo": {"devEui": "0123456789abcdef", "applicationId": "app",
                       "deviceProfileId": 7}
    }"#;
    assert!(matches!(
        parser.parse_message(topic, bad_profile.as_bytes()),
        Err(ParseError::MalformedJson(_))
    ));
}
