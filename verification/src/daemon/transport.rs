//! Messages on a socket: a header with the length, then the body, with descriptors beside the
//! header.

use crate::contract::common::ErrorCode;
use crate::daemon::protocol::{
    header_length, length_header, WireEnvelope, MAX_FILE_DESCRIPTORS, MAX_FRAME_BYTES,
};
use crate::error::DomainError;
use crate::json::{value_of_bytes, Json};
use crate::text::utf8_text;
use vstd::prelude::*;
use vstd::utf8::valid_utf8;

verus! {

fn protocol_error(reason: &'static str) -> (error: DomainError)
    ensures
        error == (DomainError { code: ErrorCode::ProtocolIncompatible, reason }),
{
    DomainError::new(ErrorCode::ProtocolIncompatible, reason)
}

/// The header for a body that goes out with so many descriptors.
pub fn send_header(body_length: usize, descriptors: usize) -> (header: Result<
    [u8; 4],
    DomainError,
>)
    ensures
        header is Ok <==> 0 < body_length <= MAX_FRAME_BYTES && descriptors
            <= MAX_FILE_DESCRIPTORS,
        match header {
            Ok(header) => header@ == length_header(body_length as nat),
            Err(error) => error == (DomainError {
                code: ErrorCode::ResourceLimit,
                reason: "IPC frame exceeds its bound",
            }),
        },
{
    if body_length == 0 || body_length > MAX_FRAME_BYTES || descriptors > MAX_FILE_DESCRIPTORS {
        return Err(DomainError::new(ErrorCode::ResourceLimit, "IPC frame exceeds its bound"));
    }
    let header = [
        (body_length / 16_777_216 % 256) as u8,
        (body_length / 65_536 % 256) as u8,
        (body_length / 256 % 256) as u8,
        (body_length % 256) as u8,
    ];
    assert(header@ =~= length_header(body_length as nat));
    Ok(header)
}

/// The length of the body that a header announces.
pub fn body_length(header: [u8; 4]) -> (length: Result<usize, DomainError>)
    ensures
        length is Ok <==> 0 < header_length(header@) <= MAX_FRAME_BYTES,
        match length {
            Ok(length) => length == header_length(header@),
            Err(error) => error == (DomainError {
                code: ErrorCode::ProtocolIncompatible,
                reason: "invalid IPC frame length",
            }),
        },
{
    let length: u64 = (header[0] as u64) * 16_777_216 + (header[1] as u64) * 65_536 + (
    header[2] as u64) * 256 + (header[3] as u64);
    if length == 0 || length > MAX_FRAME_BYTES as u64 {
        return Err(protocol_error("invalid IPC frame length"));
    }
    Ok(length as usize)
}

/// A header announces the length that it was made for.
pub proof fn a_header_announces_its_length(length: nat)
    requires
        0 < length <= MAX_FRAME_BYTES,
    ensures
        header_length(length_header(length)) == length,
{
}

/// Refuses a body that is no text.
pub fn check_body(body: &[u8]) -> (checked: Result<(), DomainError>)
    ensures
        checked == (if valid_utf8(body@) {
            Ok(())
        } else {
            Err(
                DomainError {
                    code: ErrorCode::ProtocolIncompatible,
                    reason: "IPC JSON is not UTF-8",
                },
            )
        }),
{
    match utf8_text(body) {
        Some(_) => Ok(()),
        None => Err(protocol_error("IPC JSON is not UTF-8")),
    }
}

/// Takes in the message of a body that came with so many descriptors; `None` stands for a body
/// that is no message.
pub fn receive_envelope(decoded: Option<WireEnvelope>, descriptors: usize) -> (envelope: Result<
    WireEnvelope,
    DomainError,
>)
    ensures
        envelope == (match decoded {
            None => Err(
                DomainError {
                    code: ErrorCode::ProtocolIncompatible,
                    reason: "invalid IPC envelope JSON",
                },
            ),
            Some(envelope) => if envelope.well_formed(descriptors as int) {
                Ok(envelope)
            } else {
                Err(
                    DomainError {
                        code: ErrorCode::ProtocolIncompatible,
                        reason: "invalid daemon protocol envelope",
                    },
                )
            },
        }),
{
    match decoded {
        None => Err(protocol_error("invalid IPC envelope JSON")),
        Some(envelope) => match envelope.validate(descriptors) {
            Ok(()) => Ok(envelope),
            Err(error) => Err(error),
        },
    }
}

/// Refuses descriptors beside a first message.
pub fn check_handshake_descriptors(descriptors: usize) -> (checked: Result<(), DomainError>)
    ensures
        checked == (if descriptors == 0 {
            Ok(())
        } else {
            Err(
                DomainError {
                    code: ErrorCode::ProtocolIncompatible,
                    reason: "handshake cannot carry descriptors",
                },
            )
        }),
{
    if descriptors != 0 {
        return Err(protocol_error("handshake cannot carry descriptors"));
    }
    Ok(())
}

/// Reads the response of a helper: a value, with no descriptors beside it.
pub fn helper_response(body: &[u8], descriptors: usize) -> (response: Result<Json, DomainError>)
    ensures
        match response {
            Ok(json) => descriptors == 0 && value_of_bytes(body@) == Some(json@),
            Err(error) => if descriptors != 0 {
                error == DomainError {
                    code: ErrorCode::ProtocolIncompatible,
                    reason: "handshake cannot carry descriptors",
                }
            } else {
                value_of_bytes(body@) is None && error == DomainError {
                    code: ErrorCode::ProtocolIncompatible,
                    reason: "invalid IPC JSON",
                }
            },
        },
{
    match check_handshake_descriptors(descriptors) {
        Ok(()) => {},
        Err(error) => {
            return Err(error);
        },
    }
    match Json::parse(body) {
        Some(json) => Ok(json),
        None => Err(protocol_error("invalid IPC JSON")),
    }
}

/// Refuses a header that did not come whole, or whose descriptors did not.
pub fn check_received_header(received: usize, control_truncated: bool) -> (checked: Result<
    (),
    DomainError,
>)
    ensures
        checked == (if received == 0 {
            Err(DomainError { code: ErrorCode::IoError, reason: "IPC peer disconnected" })
        } else if received != 4 || control_truncated {
            Err(
                DomainError {
                    code: ErrorCode::ProtocolIncompatible,
                    reason: "truncated IPC frame header or descriptors",
                },
            )
        } else {
            Ok(())
        }),
{
    if received == 0 {
        return Err(DomainError::new(ErrorCode::IoError, "IPC peer disconnected"));
    }
    if received != 4 || control_truncated {
        return Err(protocol_error("truncated IPC frame header or descriptors"));
    }
    Ok(())
}

/// The number of descriptors in one ancillary message of so many bytes, of which `overhead` are
/// its own header, after `already` of them came. `descriptor_bytes` is the size of one.
pub fn descriptor_count(
    rights: bool,
    message_bytes: usize,
    overhead: usize,
    descriptor_bytes: usize,
    already: usize,
) -> (count: Result<usize, DomainError>)
    requires
        0 < descriptor_bytes,
        already <= MAX_FILE_DESCRIPTORS,
    ensures
        match count {
            Ok(count) => {
                &&& rights
                &&& message_bytes == overhead + count * descriptor_bytes
                &&& already + count <= MAX_FILE_DESCRIPTORS
            },
            Err(error) => error == (DomainError {
                code: ErrorCode::ProtocolIncompatible,
                reason: if !rights {
                    "unknown IPC ancillary message"
                } else if message_bytes < overhead {
                    "invalid IPC descriptor message"
                } else if (message_bytes - overhead) % (descriptor_bytes as int) != 0 {
                    "invalid IPC descriptor length"
                } else {
                    "too many IPC descriptors"
                },
            }),
        },
        count is Ok <==> rights && message_bytes >= overhead && (message_bytes - overhead) % (
        descriptor_bytes as int) == 0 && already + (message_bytes - overhead) / (
        descriptor_bytes as int) <= MAX_FILE_DESCRIPTORS,
{
    if !rights {
        return Err(protocol_error("unknown IPC ancillary message"));
    }
    if message_bytes < overhead {
        return Err(protocol_error("invalid IPC descriptor message"));
    }
    let data: usize = message_bytes - overhead;
    if data % descriptor_bytes != 0 {
        return Err(protocol_error("invalid IPC descriptor length"));
    }
    let count: usize = data / descriptor_bytes;
    if count > MAX_FILE_DESCRIPTORS - already {
        return Err(protocol_error("too many IPC descriptors"));
    }
    assert(data == count * descriptor_bytes) by (nonlinear_arith)
        requires
            data % descriptor_bytes == 0,
            count == data / descriptor_bytes,
            descriptor_bytes > 0,
    ;
    Ok(count)
}

/// Whether a name can name an abstract socket whose path has so many bytes.
pub fn socket_name_fits(name: &str, path_bytes: usize) -> (fits: bool)
    ensures
        fits == (name@.len() > 0 && vstd::utf8::encode_utf8(name@).len() < path_bytes),
{
    !name.is_empty() && name.as_bytes().len() < path_bytes
}

/// A header goes out for a body of at most 262144 bytes with at most four descriptors, and its four
/// bytes, the most significant first, are the length; what comes in is read the same way.
pub proof fn a_header_is_a_length(
    length: usize,
    descriptors: usize,
    sent: Result<[u8; 4], DomainError>,
    header: [u8; 4],
    received: Result<usize, DomainError>,
)
    requires
        call_ensures(send_header, (length, descriptors), sent),
        call_ensures(body_length, (header,), received),
    ensures
        sent is Ok <==> 0 < length <= 262_144 && descriptors <= 4,
        sent matches Ok(bytes) ==> bytes@[0] * 16_777_216 + bytes@[1] * 65_536 + bytes@[2] * 256
            + bytes@[3] == length,
        received matches Ok(told) ==> told == header@[0] * 16_777_216 + header@[1] * 65_536
            + header@[2] * 256 + header@[3] && 0 < told <= 262_144,
        received is Err ==> header@[0] * 16_777_216 + header@[1] * 65_536 + header@[2] * 256
            + header@[3] == 0 || header@[0] * 16_777_216 + header@[1] * 65_536 + header@[2] * 256
            + header@[3] > 262_144,
        sent == Ok::<_, DomainError>(header) ==> received == Ok::<_, DomainError>(length),
{
    if sent is Ok {
        a_header_announces_its_length(length as nat);
    }
}

} // verus!
