//! The envelope answered before a handler is reached, when the request
//! body itself is rejected: a wrong content type or a malformed
//! payload. Unlike the per-handler failures, these carry their own
//! transport status codes.

use vstd::prelude::*;
use crate::default_strings::{
    CustomStatusMessage, UserErrorMessages, spec_status_failed, spec_user_error_message,
};

verus! {

/// The body-rejection envelope: a status string and a message, with
/// the transport status set on the response itself.
pub struct CustomJsonErrorResponse {
    pub custom_status: String,
    pub message: String,
}

impl CustomJsonErrorResponse {
    /// Builds the envelope from its two parts, unchanged.
    pub fn json_error_response(custom_status: String, message: String) -> (r:
        CustomJsonErrorResponse)
        ensures
            r.custom_status == custom_status,
            r.message == message,
    {
        CustomJsonErrorResponse { custom_status, message }
    }
}

/// The answer to a rejected request body: an unsupported content type
/// gets the media-type message with status 415, any other payload
/// failure the bad-request message with status 400.
pub fn json_payload_error_response(content_type_error: bool) -> (r: (CustomJsonErrorResponse, u16))
    ensures
        r.0.custom_status@ == spec_status_failed(),
        content_type_error ==> r.0.message@ == spec_user_error_message(
            UserErrorMessages::UnsupportedMediaType,
        ) && r.1 == 415,
        !content_type_error ==> r.0.message@ == spec_user_error_message(
            UserErrorMessages::BadClientData,
        ) && r.1 == 400,
{
    let custom_status = String::from_str(CustomStatusMessage::user_request_failed());
    if content_type_error {
        let message = UserErrorMessages::UnsupportedMediaType.message();
        (CustomJsonErrorResponse::json_error_response(custom_status, message), 415)
    } else {
        let message = UserErrorMessages::BadClientData.message();
        (CustomJsonErrorResponse::json_error_response(custom_status, message), 400)
    }
}

} // verus!
