use user_profile_service::crud_controller::create_user_profile_response;
use user_profile_service::crud_controller::delete_user_profile_response;
use user_profile_service::crud_controller::read_user_profile_response;
use user_profile_service::crud_controller::update_user_profile_response;
use user_profile_service::default_strings::CustomStatusMessage;
use user_profile_service::default_strings::ServiceCustomCodes;
use user_profile_service::default_strings::UserErrorMessages;
use user_profile_service::generic_json_success_response::GenericJsonSuccessResponse;
use user_profile_service::json_error_handling::json_payload_error_response;
use user_profile_service::ycql_db_schema_and_queries::UserProfileRowStruct;

#[test]
fn status_strings_are_fixed() {
    assert_eq!(CustomStatusMessage::user_request_success(), "SUCCESS");
    assert_eq!(CustomStatusMessage::user_request_failed(), "FAILED");
    assert_eq!(CustomStatusMessage::user_request_denied(), "DENIED");
}

#[test]
fn reference_codes_are_fixed() {
    assert_eq!(ServiceCustomCodes::jwt_denied_code(), "444-PS-DJWT");
    assert_eq!(ServiceCustomCodes::internal_server_error_code(), "444-PS-INT");
    assert_eq!(ServiceCustomCodes::internal_masking_error_code(), "444-PS-MSK");
    assert_eq!(ServiceCustomCodes::bad_request_error_code(), "444-PS-DBR");
    assert_eq!(
        ServiceCustomCodes::unsupported_media_type_error_code(),
        "444-PS-UNSM"
    );
}

#[test]
fn user_error_messages_embed_their_codes() {
    assert_eq!(
        UserErrorMessages::InternalServerError.message(),
        "Please try again later REFERENCE CODE: 444-PS-INT"
    );
    assert_eq!(
        UserErrorMessages::UnsupportedMediaType.message(),
        "Unsupported media content REFERENCE CODE: 444-PS-UNSM"
    );
    assert_eq!(
        UserErrorMessages::BadClientData.message(),
        "Bad request REFERENCE CODE: 444-PS-DBR"
    );
    assert_eq!(UserErrorMessages::Timeout.message(), "timeout");
    assert_eq!(
        UserErrorMessages::InputError {
            reason: String::from("the field"),
        }
        .message(),
        "Input error for reference check: the field"
    );
    assert_eq!(
        UserErrorMessages::JwtAccessTokenError.message(),
        "Access Denied, reference code: 444-PS-DJWT"
    );
    assert_eq!(
        UserErrorMessages::ForMaskingError.message(),
        "Process terminated, REFERENCE CODE: 444-PS-MSK"
    );
}

#[test]
fn generic_success_response_keeps_its_parts() {
    let envelope = GenericJsonSuccessResponse::<String>::generic_success_response(
        String::from("SUCCESS"),
        String::from("all done"),
        200,
        Some(String::from("payload")),
    );
    assert_eq!(envelope.custom_status, "SUCCESS");
    assert_eq!(envelope.message, "all done");
    assert_eq!(envelope.status, 200);
    assert_eq!(envelope.data, Some(String::from("payload")));
}

#[test]
fn create_success_envelope_has_no_data() {
    let r = create_user_profile_response(true).ok().unwrap();
    assert_eq!(r.custom_status, "SUCCESS");
    assert_eq!(r.message, "User profile created successfully");
    assert_eq!(r.status, 200);
    assert_eq!(r.data, None);
}

#[test]
fn create_failure_envelope_is_opaque_and_401() {
    let e = create_user_profile_response(false).err().unwrap();
    assert_eq!(e.custom_status, "FAILED");
    assert_eq!(
        e.message,
        "Input error for reference check: We could not create your profile please try again later"
    );
    assert_eq!(e.status, 401);
}

#[test]
fn read_of_zero_rows_is_still_a_success() {
    let r = read_user_profile_response(Some(Vec::<UserProfileRowStruct>::new()))
        .ok()
        .unwrap();
    assert_eq!(r.custom_status, "SUCCESS");
    assert_eq!(r.message, "success");
    assert_eq!(r.status, 200);
    assert_eq!(r.data.unwrap().len(), 0);
}

#[test]
fn read_failure_envelope_is_401() {
    let e = read_user_profile_response(None).err().unwrap();
    assert_eq!(e.custom_status, "FAILED");
    assert_eq!(
        e.message,
        "Input error for reference check: We could not get your profile right now"
    );
    assert_eq!(e.status, 401);
}

#[test]
fn update_envelopes_are_fixed() {
    let r = update_user_profile_response(true).ok().unwrap();
    assert_eq!(r.message, "User profile updated successfully");
    assert_eq!(r.status, 200);
    assert_eq!(r.data, None);
    let e = update_user_profile_response(false).err().unwrap();
    assert_eq!(
        e.message,
        "Input error for reference check: Could not update profile"
    );
    assert_eq!(e.status, 401);
}

#[test]
fn delete_envelopes_are_fixed() {
    let r = delete_user_profile_response(true).ok().unwrap();
    assert_eq!(r.message, "Successfuly deleted profile");
    assert_eq!(r.status, 200);
    assert_eq!(r.data, None);
    let e = delete_user_profile_response(false).err().unwrap();
    assert_eq!(
        e.message,
        "Input error for reference check: Could not delete user profile"
    );
    assert_eq!(e.status, 401);
}

#[test]
fn payload_rejection_codes_differ_by_cause() {
    let (unsupported, status) = json_payload_error_response(true);
    assert_eq!(unsupported.custom_status, "FAILED");
    assert_eq!(
        unsupported.message,
        "Unsupported media content REFERENCE CODE: 444-PS-UNSM"
    );
    assert_eq!(status, 415);
    let (bad, status) = json_payload_error_response(false);
    assert_eq!(bad.custom_status, "FAILED");
    assert_eq!(bad.message, "Bad request REFERENCE CODE: 444-PS-DBR");
    assert_eq!(status, 400);
}
