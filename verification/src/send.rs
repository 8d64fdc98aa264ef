use vstd::prelude::*;

use crate::message::{frame_bytes, DoipMessage, EncodeError, Payload};
use crate::payload::{is_valid_payload, tcp_admissible};
use crate::version::ProtocolVersion;

verus! {

/// Immutable description of a connection: the protocol version stamped on
/// every outgoing message. Created when the connection is, copied to any split
/// halves, never mutated.
#[derive(Clone, Copy, Debug, PartialEq, Eq, Structural)]
pub struct SocketConfig {
    /// The protocol version in effect on this connection.
    pub protocol_version: ProtocolVersion,
}

impl Default for SocketConfig {
    /// The configuration a fresh connection gets: the currently supported
    /// protocol version.
    fn default() -> (r: SocketConfig)
        ensures
            r.protocol_version == ProtocolVersion::Iso13400_2012,
    {
        SocketConfig { protocol_version: ProtocolVersion::Iso13400_2012 }
    }
}

/// Why an outgoing send was refused before any bytes reached the socket.
#[derive(Clone, Copy, Debug, PartialEq, Eq, Structural)]
pub enum SocketSendError {
    /// The payload's type is not admissible on the TCP transport.
    InvalidTcpPayload,
    /// The payload was admissible but could not be framed.
    EncodeError(EncodeError),
}

/// The outbound send decision: checks the payload's discriminant against the
/// TCP admission policy, and frames the admissible payload under the
/// configuration's protocol version. Yields the exact bytes to write to the
/// socket, or an error — in which case no bytes are to be written at all.
pub fn prepare_send(config: &SocketConfig, payload: Payload) -> (r: Result<
    Vec<u8>,
    SocketSendError,
>)
    ensures
        !tcp_admissible(payload.payload_type) <==> r == Err::<Vec<u8>, SocketSendError>(
            SocketSendError::InvalidTcpPayload,
        ),
        (tcp_admissible(payload.payload_type) && payload.data@.len() > u32::MAX) <==> r == Err::<
            Vec<u8>,
            SocketSendError,
        >(SocketSendError::EncodeError(EncodeError::PayloadTooLarge)),
        (tcp_admissible(payload.payload_type) && payload.data@.len() <= u32::MAX) ==> (r matches Ok(
            b,
        ) && b@ == frame_bytes(config.protocol_version, payload.payload_type, payload.data@)),
{
    if !is_valid_payload(payload.payload_type) {
        return Err(SocketSendError::InvalidTcpPayload);
    }
    let ghost data_view = payload.data@;
    match DoipMessage::new(config.protocol_version, payload) {
        Ok(m) => {
            let b = m.to_bytes();
            assert(b@ =~= frame_bytes(config.protocol_version, m.header.payload_type, data_view));
            Ok(b)
        },
        Err(e) => Err(SocketSendError::EncodeError(e)),
    }
}

} // verus!
