use vstd::prelude::*;

verus! {

/// The payload-type discriminant a DoIP header carries: it tags which kind of
/// protocol message a frame holds.
#[derive(Clone, Copy, Debug, PartialEq, Eq, Structural)]
pub enum PayloadType {
    GenericNack,
    VehicleIdentificationRequest,
    VehicleIdentificationRequestEid,
    VehicleIdentificationRequestVin,
    VehicleAnnouncementMessage,
    RoutingActivationRequest,
    RoutingActivationResponse,
    AliveCheckRequest,
    AliveCheckResponse,
    EntityStatusRequest,
    EntityStatusResponse,
    PowerInformationRequest,
    PowerInformationResponse,
    DiagnosticMessage,
    DiagnosticMessageAck,
    DiagnosticMessageNack,
}

/// The 16-bit wire value of each payload type.
pub open spec fn type_value(t: PayloadType) -> u16 {
    match t {
        PayloadType::GenericNack => 0x0000,
        PayloadType::VehicleIdentificationRequest => 0x0001,
        PayloadType::VehicleIdentificationRequestEid => 0x0002,
        PayloadType::VehicleIdentificationRequestVin => 0x0003,
        PayloadType::VehicleAnnouncementMessage => 0x0004,
        PayloadType::RoutingActivationRequest => 0x0005,
        PayloadType::RoutingActivationResponse => 0x0006,
        PayloadType::AliveCheckRequest => 0x0007,
        PayloadType::AliveCheckResponse => 0x0008,
        PayloadType::EntityStatusRequest => 0x4001,
        PayloadType::EntityStatusResponse => 0x4002,
        PayloadType::PowerInformationRequest => 0x4003,
        PayloadType::PowerInformationResponse => 0x4004,
        PayloadType::DiagnosticMessage => 0x8001,
        PayloadType::DiagnosticMessageAck => 0x8002,
        PayloadType::DiagnosticMessageNack => 0x8003,
    }
}

/// The payload type a 16-bit wire value denotes, if any.
pub open spec fn type_from_value(v: u16) -> Option<PayloadType> {
    if v == 0x0000 {
        Some(PayloadType::GenericNack)
    } else if v == 0x0001 {
        Some(PayloadType::VehicleIdentificationRequest)
    } else if v == 0x0002 {
        Some(PayloadType::VehicleIdentificationRequestEid)
    } else if v == 0x0003 {
        Some(PayloadType::VehicleIdentificationRequestVin)
    } else if v == 0x0004 {
        Some(PayloadType::VehicleAnnouncementMessage)
    } else if v == 0x0005 {
        Some(PayloadType::RoutingActivationRequest)
    } else if v == 0x0006 {
        Some(PayloadType::RoutingActivationResponse)
    } else if v == 0x0007 {
        Some(PayloadType::AliveCheckRequest)
    } else if v == 0x0008 {
        Some(PayloadType::AliveCheckResponse)
    } else if v == 0x4001 {
        Some(PayloadType::EntityStatusRequest)
    } else if v == 0x4002 {
        Some(PayloadType::EntityStatusResponse)
    } else if v == 0x4003 {
        Some(PayloadType::PowerInformationRequest)
    } else if v == 0x4004 {
        Some(PayloadType::PowerInformationResponse)
    } else if v == 0x8001 {
        Some(PayloadType::DiagnosticMessage)
    } else if v == 0x8002 {
        Some(PayloadType::DiagnosticMessageAck)
    } else if v == 0x8003 {
        Some(PayloadType::DiagnosticMessageNack)
    } else {
        None
    }
}

/// The TCP admission policy: which payload types may be sent over the TCP
/// transport. Vehicle identification, entity status and power information
/// exchanges belong to the companion UDP discovery channel and are excluded.
pub open spec fn tcp_admissible(t: PayloadType) -> bool {
    match t {
        PayloadType::GenericNack => true,
        PayloadType::VehicleAnnouncementMessage => true,
        PayloadType::RoutingActivationRequest => true,
        PayloadType::RoutingActivationResponse => true,
        PayloadType::AliveCheckRequest => true,
        PayloadType::AliveCheckResponse => true,
        PayloadType::DiagnosticMessage => true,
        PayloadType::DiagnosticMessageAck => true,
        PayloadType::DiagnosticMessageNack => true,
        _ => false,
    }
}

impl PayloadType {
    /// The 16-bit value this payload type is written as on the wire.
    pub fn value(&self) -> (r: u16)
        ensures
            r == type_value(*self),
    {
        match self {
            PayloadType::GenericNack => 0x0000,
            PayloadType::VehicleIdentificationRequest => 0x0001,
            PayloadType::VehicleIdentificationRequestEid => 0x0002,
            PayloadType::VehicleIdentificationRequestVin => 0x0003,
            PayloadType::VehicleAnnouncementMessage => 0x0004,
            PayloadType::RoutingActivationRequest => 0x0005,
            PayloadType::RoutingActivationResponse => 0x0006,
            PayloadType::AliveCheckRequest => 0x0007,
            PayloadType::AliveCheckResponse => 0x0008,
            PayloadType::EntityStatusRequest => 0x4001,
            PayloadType::EntityStatusResponse => 0x4002,
            PayloadType::PowerInformationRequest => 0x4003,
            PayloadType::PowerInformationResponse => 0x4004,
            PayloadType::DiagnosticMessage => 0x8001,
            PayloadType::DiagnosticMessageAck => 0x8002,
            PayloadType::DiagnosticMessageNack => 0x8003,
        }
    }

    /// The payload type denoted by a 16-bit wire value, or `None` on an
    /// unknown value.
    pub fn from_value(v: u16) -> (r: Option<PayloadType>)
        ensures
            r == type_from_value(v),
    {
        if v == 0x0000 {
            Some(PayloadType::GenericNack)
        } else if v == 0x0001 {
            Some(PayloadType::VehicleIdentificationRequest)
        } else if v == 0x0002 {
            Some(PayloadType::VehicleIdentificationRequestEid)
        } else if v == 0x0003 {
            Some(PayloadType::VehicleIdentificationRequestVin)
        } else if v == 0x0004 {
            Some(PayloadType::VehicleAnnouncementMessage)
        } else if v == 0x0005 {
            Some(PayloadType::RoutingActivationRequest)
        } else if v == 0x0006 {
            Some(PayloadType::RoutingActivationResponse)
        } else if v == 0x0007 {
            Some(PayloadType::AliveCheckRequest)
        } else if v == 0x0008 {
            Some(PayloadType::AliveCheckResponse)
        } else if v == 0x4001 {
            Some(PayloadType::EntityStatusRequest)
        } else if v == 0x4002 {
            Some(PayloadType::EntityStatusResponse)
        } else if v == 0x4003 {
            Some(PayloadType::PowerInformationRequest)
        } else if v == 0x4004 {
            Some(PayloadType::PowerInformationResponse)
        } else if v == 0x8001 {
            Some(PayloadType::DiagnosticMessage)
        } else if v == 0x8002 {
            Some(PayloadType::DiagnosticMessageAck)
        } else if v == 0x8003 {
            Some(PayloadType::DiagnosticMessageNack)
        } else {
            None
        }
    }
}

/// Decides whether a payload type may be sent over this TCP transport.
/// Evaluated on outgoing sends only; inbound reads are never filtered.
pub fn is_valid_payload(payload_type: PayloadType) -> (r: bool)
    ensures
        r == tcp_admissible(payload_type),
{
    match payload_type {
        PayloadType::GenericNack => true,
        PayloadType::VehicleAnnouncementMessage => true,
        PayloadType::RoutingActivationRequest => true,
        PayloadType::RoutingActivationResponse => true,
        PayloadType::AliveCheckRequest => true,
        PayloadType::AliveCheckResponse => true,
        PayloadType::DiagnosticMessage => true,
        PayloadType::DiagnosticMessageAck => true,
        PayloadType::DiagnosticMessageNack => true,
        _ => false,
    }
}

/// Reading back the value a payload type was written as gives that type.
pub proof fn lemma_type_value_round_trip(t: PayloadType)
    ensures
        type_from_value(type_value(t)) == Some(t),
{
}

/// A value that denotes a payload type is exactly that type's wire value.
pub proof fn lemma_type_from_value_inverse(v: u16)
    ensures
        type_from_value(v) matches Some(t) ==> type_value(t) == v,
{
}

} // verus!
