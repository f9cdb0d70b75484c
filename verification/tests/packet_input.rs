use droidbridge::contract::decode::{decode_value, read_decode_request};
use droidbridge::contract::tools::{NetworkPacketInput, PacketDecodeSource};
use droidbridge::json::Json;

fn parse(text: &str) -> Option<NetworkPacketInput> {
    let value = Json::parse(text.as_bytes()).expect("a value");
    read_decode_request(&value).map(|source| NetworkPacketInput::Decode { source })
}

#[test]
fn every_decode_source_deserializes_to_its_typed_source() {
    let reference = "dbref:packet:30fa108d-cca4-4b49-abcc-bac3210b806a";
    assert_eq!(
        parse(
            r#"{"operation": "decode", "packet_ref": "dbref:packet:30fa108d-cca4-4b49-abcc-bac3210b806a"}"#
        )
        .unwrap(),
        NetworkPacketInput::Decode {
            source: PacketDecodeSource::PacketRef {
                packet_ref: reference.to_owned(),
            },
        }
    );
    assert_eq!(
        parse(r#"{"operation": "decode", "raw_base64": "AAAA"}"#).unwrap(),
        NetworkPacketInput::Decode {
            source: PacketDecodeSource::Raw {
                raw_base64: "AAAA".to_owned(),
            },
        }
    );
    assert_eq!(
        parse(r#"{"operation": "decode", "capture_ref": "dbref:capture:x", "index": 3}"#).unwrap(),
        NetworkPacketInput::Decode {
            source: PacketDecodeSource::Capture {
                capture_ref: "dbref:capture:x".to_owned(),
                index: 3,
            },
        }
    );
}

#[test]
fn decode_refuses_mixed_partial_or_unknown_sources() {
    for value in [
        r#"{"operation": "decode"}"#,
        r#"{"operation": "decode", "raw_base64": "AAAA", "packet_ref": "dbref:packet:x"}"#,
        r#"{"operation": "decode", "capture_ref": "dbref:capture:x"}"#,
        r#"{"operation": "decode", "index": 0}"#,
        r#"{"operation": "decode", "packet_ref": "dbref:packet:x", "index": 0}"#,
        r#"{"operation": "decode", "packet_ref": "dbref:packet:x", "extra": true}"#,
    ] {
        assert!(parse(value).is_none(), "{value} must be refused");
    }
}

#[test]
fn a_decoded_input_serializes_back_to_the_same_public_shape() {
    let text = r#"{"operation": "decode", "packet_ref": "dbref:packet:x"}"#;
    let value = Json::parse(text.as_bytes()).unwrap();
    let source = read_decode_request(&value).unwrap();
    assert_eq!(decode_value(&source), value);
}

#[test]
fn a_decode_request_names_each_field_by_its_kind() {
    assert!(parse(r#"{"operation": "decode", "raw_base64": null, "packet_ref": "x"}"#).is_some());
    assert!(parse(r#"{"operation": "decode", "raw_base64": 1}"#).is_none());
    assert!(parse(r#"{"operation": "decode", "capture_ref": "x", "index": -1}"#).is_none());
    assert!(parse(r#"{"operation": "build", "raw_base64": "AAAA"}"#).is_none());
    assert!(parse("[]").is_none());
}
