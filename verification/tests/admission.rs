use doip_sockets::payload::{is_valid_payload, PayloadType};
use doip_sockets::send::{prepare_send, SocketConfig, SocketSendError};
use doip_sockets::message::Payload;
use doip_sockets::version::ProtocolVersion;

#[test]
fn admission_table_is_exhaustive() {
    assert!(is_valid_payload(PayloadType::GenericNack));
    assert!(!is_valid_payload(PayloadType::VehicleIdentificationRequest));
    assert!(!is_valid_payload(PayloadType::VehicleIdentificationRequestEid));
    assert!(!is_valid_payload(PayloadType::VehicleIdentificationRequestVin));
    assert!(is_valid_payload(PayloadType::VehicleAnnouncementMessage));
    assert!(is_valid_payload(PayloadType::RoutingActivationRequest));
    assert!(is_valid_payload(PayloadType::RoutingActivationResponse));
    assert!(is_valid_payload(PayloadType::AliveCheckRequest));
    assert!(is_valid_payload(PayloadType::AliveCheckResponse));
    assert!(!is_valid_payload(PayloadType::EntityStatusRequest));
    assert!(!is_valid_payload(PayloadType::EntityStatusResponse));
    assert!(!is_valid_payload(PayloadType::PowerInformationRequest));
    assert!(!is_valid_payload(PayloadType::PowerInformationResponse));
    assert!(is_valid_payload(PayloadType::DiagnosticMessage));
    assert!(is_valid_payload(PayloadType::DiagnosticMessageAck));
    assert!(is_valid_payload(PayloadType::DiagnosticMessageNack));
}

#[test]
fn payload_type_values_round_trip() {
    let all = [
        (PayloadType::GenericNack, 0x0000u16),
        (PayloadType::VehicleIdentificationRequest, 0x0001),
        (PayloadType::VehicleIdentificationRequestEid, 0x0002),
        (PayloadType::VehicleIdentificationRequestVin, 0x0003),
        (PayloadType::VehicleAnnouncementMessage, 0x0004),
        (PayloadType::RoutingActivationRequest, 0x0005),
        (PayloadType::RoutingActivationResponse, 0x0006),
        (PayloadType::AliveCheckRequest, 0x0007),
        (PayloadType::AliveCheckResponse, 0x0008),
        (PayloadType::EntityStatusRequest, 0x4001),
        (PayloadType::EntityStatusResponse, 0x4002),
        (PayloadType::PowerInformationRequest, 0x4003),
        (PayloadType::PowerInformationResponse, 0x4004),
        (PayloadType::DiagnosticMessage, 0x8001),
        (PayloadType::DiagnosticMessageAck, 0x8002),
        (PayloadType::DiagnosticMessageNack, 0x8003),
    ];
    for (t, v) in all {
        assert_eq!(t.value(), v);
        assert_eq!(PayloadType::from_value(v), Some(t));
    }
}

#[test]
fn payload_type_unknown_values() {
    assert_eq!(PayloadType::from_value(0x0009), None);
    assert_eq!(PayloadType::from_value(0x4005), None);
    assert_eq!(PayloadType::from_value(0x9001), None);
    assert_eq!(PayloadType::from_value(0xffff), None);
}

#[test]
fn protocol_version_values_round_trip() {
    let all = [
        (ProtocolVersion::ReservedVer, 0x00u8),
        (ProtocolVersion::Iso13400_2010, 0x01),
        (ProtocolVersion::Iso13400_2012, 0x02),
        (ProtocolVersion::Iso13400_2019, 0x03),
        (ProtocolVersion::Iso13400_2019Amd1, 0x04),
        (ProtocolVersion::DefaultValue, 0xff),
    ];
    for (v, b) in all {
        assert_eq!(v.value(), b);
        assert_eq!(ProtocolVersion::from_value(b), Some(v));
        assert_eq!(v.inverse_value(), 255 - b);
    }
    assert_eq!(ProtocolVersion::from_value(0x05), None);
}

#[test]
fn default_config_uses_current_version() {
    let config = SocketConfig::default();
    assert_eq!(config.protocol_version, ProtocolVersion::Iso13400_2012);
}

#[test]
fn inadmissible_payload_is_refused_without_bytes() {
    let config = SocketConfig::default();
    let payload = Payload {
        payload_type: PayloadType::VehicleIdentificationRequest,
        data: Vec::new(),
    };
    let r = prepare_send(&config, payload);
    assert_eq!(r, Err(SocketSendError::InvalidTcpPayload));
}
