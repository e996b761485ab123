//! The uniform error envelope: a status string, a user-facing message,
//! and the HTTP status code set on the response itself.

use vstd::prelude::*;
use crate::default_strings::{CustomStatusMessage, UserErrorMessages, spec_status_failed};

verus! {

/// The JSON error envelope returned by every handler on failure. The
/// `status` field is the transport status code; the serialized body
/// carries only `custom_status` and `message`.
pub struct GenericJsonErrorResponse {
    pub custom_status: String,
    pub message: String,
    pub status: u16,
}

/// The one failure shape the current handlers produce: status string
/// `FAILED`, an input-error message carrying the given reason, and
/// transport status 401 whatever the root cause.
pub open spec fn spec_is_input_failure(e: GenericJsonErrorResponse, reason: Seq<char>) -> bool {
    &&& e.custom_status@ == spec_status_failed()
    &&& e.message@ == "Input error for reference check: "@ + reason
    &&& e.status == 401
}

impl GenericJsonErrorResponse {
    /// The failure envelope for a user-facing reason: `FAILED`, the
    /// input-error message, status 401.
    pub fn failed_input_error(reason: &str) -> (e: GenericJsonErrorResponse)
        ensures
            spec_is_input_failure(e, reason@),
    {
        let message = (UserErrorMessages::InputError {
            reason: String::from_str(reason),
        }).message();
        GenericJsonErrorResponse {
            custom_status: String::from_str(CustomStatusMessage::user_request_failed()),
            message,
            status: 401,
        }
    }
}

} // verus!
