//! The fixed status strings, service reference codes and user-facing
//! error messages that every response envelope draws from.

use vstd::prelude::*;

verus! {

/// The machine-readable `custom_status` values carried by every envelope.
#[non_exhaustive]
pub struct CustomStatusMessage;

impl CustomStatusMessage {
    /// The request failed validation, parsing or execution.
    pub fn user_request_failed() -> (r: &'static str)
        ensures
            r@ == spec_status_failed(),
    {
        "FAILED"
    }

    /// The request failed authentication (reserved, raised by no handler).
    pub fn user_request_denied() -> (r: &'static str)
        ensures
            r@ == spec_status_denied(),
    {
        "DENIED"
    }

    /// The request was processed successfully.
    pub fn user_request_success() -> (r: &'static str)
        ensures
            r@ == spec_status_success(),
    {
        "SUCCESS"
    }
}

pub open spec fn spec_status_failed() -> Seq<char> {
    "FAILED"@
}

pub open spec fn spec_status_denied() -> Seq<char> {
    "DENIED"@
}

pub open spec fn spec_status_success() -> Seq<char> {
    "SUCCESS"@
}

/// Reference codes that the fixed error messages embed, so that a user
/// report can be matched to an error class without leaking its cause.
#[non_exhaustive]
pub struct ServiceCustomCodes;

impl ServiceCustomCodes {
    /// Access through a JSON web token was denied.
    pub fn jwt_denied_code() -> (r: &'static str)
        ensures
            r@ == "444-PS-DJWT"@,
    {
        "444-PS-DJWT"
    }

    /// An internal server error, for user reference.
    pub fn internal_server_error_code() -> (r: &'static str)
        ensures
            r@ == "444-PS-INT"@,
    {
        "444-PS-INT"
    }

    /// An error whose nature is deliberately masked from the user.
    pub fn internal_masking_error_code() -> (r: &'static str)
        ensures
            r@ == "444-PS-MSK"@,
    {
        "444-PS-MSK"
    }

    /// A malformed request, for user reference.
    pub fn bad_request_error_code() -> (r: &'static str)
        ensures
            r@ == "444-PS-DBR"@,
    {
        "444-PS-DBR"
    }

    /// A request whose media type is not supported, for user reference.
    pub fn unsupported_media_type_error_code() -> (r: &'static str)
        ensures
            r@ == "444-PS-UNSM"@,
    {
        "444-PS-UNSM"
    }
}

/// The closed set of user-facing error messages. Only `InputError` is
/// raised by the current handlers; the other kinds are reserved.
pub enum UserErrorMessages {
    /// An internal server error, masked behind a reference code.
    InternalServerError,
    /// The request body's media type is unsupported.
    UnsupportedMediaType,
    /// The request body is malformed.
    BadClientData,
    /// A timeout (reserved).
    Timeout,
    /// A validation or parse failure, with a user-facing reason.
    InputError { reason: String },
    /// A JSON web token was rejected (reserved).
    JwtAccessTokenError,
    /// An error of unclear origin, masked behind a reference code.
    ForMaskingError,
}

/// What `message` returns for each kind.
pub open spec fn spec_user_error_message(e: UserErrorMessages) -> Seq<char> {
    match e {
        UserErrorMessages::InternalServerError => "Please try again later REFERENCE CODE: "@
            + "444-PS-INT"@,
        UserErrorMessages::UnsupportedMediaType => "Unsupported media content REFERENCE CODE: "@
            + "444-PS-UNSM"@,
        UserErrorMessages::BadClientData => "Bad request REFERENCE CODE: "@ + "444-PS-DBR"@,
        UserErrorMessages::Timeout => "timeout"@,
        UserErrorMessages::InputError { reason } => "Input error for reference check: "@ + reason@,
        UserErrorMessages::JwtAccessTokenError => "Access Denied, reference code: "@
            + "444-PS-DJWT"@,
        UserErrorMessages::ForMaskingError => "Process terminated, REFERENCE CODE: "@
            + "444-PS-MSK"@,
    }
}

impl UserErrorMessages {
    /// The user-facing text of this error, with the reference code of
    /// its kind appended where one exists.
    pub fn message(&self) -> (r: String)
        ensures
            r@ == spec_user_error_message(*self),
    {
        match self {
            UserErrorMessages::InternalServerError => String::from_str(
                "Please try again later REFERENCE CODE: ",
            ).concat(ServiceCustomCodes::internal_server_error_code()),
            UserErrorMessages::UnsupportedMediaType => String::from_str(
                "Unsupported media content REFERENCE CODE: ",
            ).concat(ServiceCustomCodes::unsupported_media_type_error_code()),
            UserErrorMessages::BadClientData => String::from_str(
                "Bad request REFERENCE CODE: ",
            ).concat(ServiceCustomCodes::bad_request_error_code()),
            UserErrorMessages::Timeout => String::from_str("timeout"),
            UserErrorMessages::InputError { reason } => String::from_str(
                "Input error for reference check: ",
            ).concat(reason.as_str()),
            UserErrorMessages::JwtAccessTokenError => String::from_str(
                "Access Denied, reference code: ",
            ).concat(ServiceCustomCodes::jwt_denied_code()),
            UserErrorMessages::ForMaskingError => String::from_str(
                "Process terminated, REFERENCE CODE: ",
            ).concat(ServiceCustomCodes::internal_masking_error_code()),
        }
    }
}

} // verus!
