//! The uniform success envelope: a status string, a message, the HTTP
//! status code, and an optional payload (present only for reads).

use vstd::prelude::*;

verus! {

/// The JSON success envelope returned by every handler on success.
pub struct GenericJsonSuccessResponse<T> {
    pub custom_status: String,
    pub message: String,
    pub status: u16,
    pub data: Option<T>,
}

impl<T> GenericJsonSuccessResponse<T> {
    /// Builds the envelope from its four parts, unchanged.
    pub fn generic_success_response(
        custom_status: String,
        message: String,
        status: u16,
        data: Option<T>,
    ) -> (r: GenericJsonSuccessResponse<T>)
        ensures
            r.custom_status == custom_status,
            r.message == message,
            r.status == status,
            r.data == data,
    {
        GenericJsonSuccessResponse { custom_status, message, status, data }
    }
}

} // verus!
