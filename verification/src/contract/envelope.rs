//! Public requests and responses, and the one spelling of a payload by which requests are compared.

use crate::contract::common::{ProtocolVersion, PublicError, RequestId};
use crate::contract::tools::PublicPayload;
use crate::digest::{digest_text, sha256_text};
use crate::json::{canonical, canonicalize, json_text, render, Json};
use crate::text::is_lower_hex;
use vstd::prelude::*;
use vstd::utf8::encode_utf8;

verus! {

/// One request of a caller.
#[derive(Clone, Debug, PartialEq)]
pub struct PublicRequest {
    pub protocol_version: ProtocolVersion,
    pub request_id: RequestId,
    pub payload: PublicPayload,
}

/// The response to a request. It names the request, unless the request could not be read so far.
#[allow(inconsistent_fields)]
#[derive(Clone, Debug, PartialEq)]
pub enum PublicResponse<T> {
    Success { protocol_version: ProtocolVersion, request_id: RequestId, result: T },
    Error {
        protocol_version: ProtocolVersion,
        request_id: Option<RequestId>,
        error: PublicError,
    },
}

impl<T> PublicResponse<T> {
    pub fn success(request_id: RequestId, result: T) -> (response: Self)
        ensures
            response == (PublicResponse::Success {
                protocol_version: ProtocolVersion,
                request_id,
                result,
            }),
    {
        PublicResponse::Success { protocol_version: ProtocolVersion, request_id, result }
    }

    pub fn error(request_id: Option<RequestId>, error: PublicError) -> (response: Self)
        ensures
            response == (PublicResponse::<T>::Error {
                protocol_version: ProtocolVersion,
                request_id,
                error,
            }),
    {
        PublicResponse::Error { protocol_version: ProtocolVersion, request_id, error }
    }
}

/// The bytes by which payloads are compared: the compact text of the payload, with the members of
/// every object in it in order.
pub fn canonical_payload_bytes(payload: &Json) -> (bytes: Vec<u8>)
    ensures
        bytes@ == encode_utf8(render(canonical(payload@))),
{
    let text = json_text(&canonicalize(payload));
    vstd::slice::slice_to_vec(text.as_str().as_bytes())
}

/// The digest of those bytes.
pub fn canonical_payload_sha256(payload: &Json) -> (digest: String)
    ensures
        digest@ == digest_text(encode_utf8(render(canonical(payload@)))),
        digest@.len() == 64,
        is_lower_hex(digest@),
{
    let bytes = canonical_payload_bytes(payload);
    sha256_text(bytes.as_slice())
}

} // verus!
