//! The decisions each of the four handlers takes: minting identifiers
//! and building the insert for create, building the select for read,
//! parsing the supplied identifiers before building the update and
//! delete, and turning each execution outcome into the one success or
//! failure envelope the operation answers with. The HTTP layer outside
//! the library deserializes the request structs, executes the prepared
//! statements against the session, and serializes the envelopes.

use std::time::SystemTime;
use std::time::UNIX_EPOCH;
use vstd::prelude::*;
use crate::default_strings::{CustomStatusMessage, spec_status_success};
use crate::generic_json_error_response::{GenericJsonErrorResponse, spec_is_input_failure};
use crate::generic_json_success_response::GenericJsonSuccessResponse;
use crate::identifiers::{
    IdGenerator, new_random_user_id, parse_identifier, spec_gen_key, spec_is_random_id,
    spec_is_time_ordered_id, spec_max_gen_key, spec_time_key_of, spec_uuid_parse,
};
use crate::ycql_db_schema_and_queries::{
    CqlStatement, CqlValue, NamedCqlStatement, UserProfileRowStruct,
    create_new_user_profile_query, select_user_profile_query, spec_insert_text,
    spec_row_query_values, spec_select_text, spec_update_text, spec_delete_text,
    update_full_name_and_age_query, delete_user_profile_query,
};

verus! {

/// Relies on `std::time::SystemTime::now`, read as milliseconds since
/// the Unix epoch (zero where the clock stands before it).
#[verifier::external_body]
pub fn get_epoch_ms() -> (r: u64) {
    match SystemTime::now().duration_since(UNIX_EPOCH) {
        Ok(d) => d.as_millis() as u64,
        Err(_) => 0,
    }
}

/// The create request body.
pub struct UserProfileJsonREQUEST {
    pub email_address: String,
    pub full_name: String,
    pub age: i8,
    pub comment: Option<String>,
}

/// The read request body; its identifier arrives already typed.
pub struct ReadUserProfileJsonREQUEST {
    pub user_id: u128,
    pub email_address: String,
}

/// The update request body; its identifiers arrive as text.
pub struct UpdateUserProfileJsonREQUEST {
    pub user_id: String,
    pub time_uuid_order: String,
    pub age: i8,
    pub full_name: String,
}

/// The delete request body; its identifiers arrive as text.
pub struct DeleteUserProfileJsonREQUEST {
    pub time_uuid_order: String,
    pub user_id: String,
}

/// Builds the new record and its insert statement: both identifiers
/// are minted here, well-formed and never zero, the caller's fields
/// are taken as they are, and `comment` is absent whatever the request
/// carried.
pub fn prepare_create_user_profile(gen: &mut IdGenerator, req: &UserProfileJsonREQUEST) -> (r: (
    UserProfileRowStruct,
    NamedCqlStatement,
))
    requires
        old(gen).wf(),
    ensures
        final(gen).wf(),
        spec_gen_key(*final(gen)) >= spec_gen_key(*old(gen)),
        spec_gen_key(*old(gen)) < spec_max_gen_key() ==> spec_gen_key(*final(gen)) > spec_gen_key(
            *old(gen),
        ),
        spec_is_random_id(r.0.user_id),
        r.0.user_id != 0,
        spec_is_time_ordered_id(r.0.time_uuid_order),
        r.0.time_uuid_order != 0,
        spec_time_key_of(r.0.time_uuid_order) == spec_gen_key(*final(gen)),
        r.0.email_address == req.email_address,
        r.0.full_name == req.full_name,
        r.0.age == req.age,
        r.0.comment is None,
        r.1.text@ == spec_insert_text(),
        r.1.values@ =~= spec_row_query_values(r.0),
{
    let now_ms = get_epoch_ms();
    let user_id = new_random_user_id();
    let time_uuid_order = gen.mint_time_ordered_id(now_ms);
    let row = UserProfileRowStruct::build_user_profile(
        user_id,
        time_uuid_order,
        req.email_address.clone(),
        req.full_name.clone(),
        req.age,
        None,
    );
    let statement = create_new_user_profile_query(row.clone());
    (row, statement)
}

/// The envelope the create handler answers with: the success envelope
/// without a payload where the insert executed, the fixed create
/// failure otherwise.
pub fn create_user_profile_response(executed: bool) -> (r: Result<
    GenericJsonSuccessResponse<String>,
    GenericJsonErrorResponse,
>)
    ensures
        r is Ok <==> executed,
        executed ==> (r matches Ok(s) && s.custom_status@ == spec_status_success() && s.message@
            == "User profile created successfully"@ && s.status == 200 && s.data is None),
        !executed ==> (r matches Err(e) && spec_is_input_failure(
            e,
            "We could not create your profile please try again later"@,
        )),
{
    if executed {
        Ok(
            GenericJsonSuccessResponse::generic_success_response(
                String::from_str(CustomStatusMessage::user_request_success()),
                String::from_str("User profile created successfully"),
                200,
                None,
            ),
        )
    } else {
        Err(
            GenericJsonErrorResponse::failed_input_error(
                "We could not create your profile please try again later",
            ),
        )
    }
}

/// The select statement for a read request: it filters on the typed
/// `user_id` and the given `email_address`.
pub fn prepare_read_user_profile(req: &ReadUserProfileJsonREQUEST) -> (r: CqlStatement)
    ensures
        r.text@ == spec_select_text(),
        r.values@ =~= seq![CqlValue::Id(req.user_id), CqlValue::Text(req.email_address)],
{
    select_user_profile_query(req.user_id, req.email_address.clone())
}

/// The envelope the read handler answers with: the rows the select
/// returned ride in the success envelope — an empty sequence is still
/// a success, not an error — and a failed execution gives the fixed
/// read failure.
pub fn read_user_profile_response(query_result: Option<Vec<UserProfileRowStruct>>) -> (r: Result<
    GenericJsonSuccessResponse<Vec<UserProfileRowStruct>>,
    GenericJsonErrorResponse,
>)
    ensures
        r is Ok <==> query_result is Some,
        query_result matches Some(rows) ==> (r matches Ok(s) && s.custom_status@
            == spec_status_success() && s.message@ == "success"@ && s.status == 200 && s.data
            == Some(rows)),
        query_result is None ==> (r matches Err(e) && spec_is_input_failure(
            e,
            "We could not get your profile right now"@,
        )),
{
    match query_result {
        Some(rows) => Ok(
            GenericJsonSuccessResponse::generic_success_response(
                String::from_str(CustomStatusMessage::user_request_success()),
                String::from_str("success"),
                200,
                Some(rows),
            ),
        ),
        None => Err(
            GenericJsonErrorResponse::failed_input_error("We could not get your profile right now"),
        ),
    }
}

/// The update statement for an update request, built only when both
/// identifier strings parse; a parse failure answers before any query,
/// naming the offending field.
pub fn prepare_update_user_profile(req: &UpdateUserProfileJsonREQUEST) -> (r: Result<
    CqlStatement,
    GenericJsonErrorResponse,
>)
    ensures
        r is Ok <==> spec_uuid_parse(req.user_id@) is Some && spec_uuid_parse(
            req.time_uuid_order@,
        ) is Some,
        spec_uuid_parse(req.user_id@) is None ==> (r matches Err(e) && spec_is_input_failure(
            e,
            "Invalid user id format"@,
        )),
        spec_uuid_parse(req.user_id@) is Some && spec_uuid_parse(req.time_uuid_order@) is None
            ==> (r matches Err(e) && spec_is_input_failure(e, "Invalid time_uuid_order format"@)),
        (spec_uuid_parse(req.user_id@) is Some && spec_uuid_parse(req.time_uuid_order@) is Some)
            ==> (r matches Ok(stmt) && stmt.text@ == spec_update_text() && stmt.values@ =~= seq![
            CqlValue::TinyInt(req.age),
            CqlValue::Text(req.full_name),
            CqlValue::Id(spec_uuid_parse(req.user_id@)->Some_0),
            CqlValue::Id(spec_uuid_parse(req.time_uuid_order@)->Some_0),
        ]),
{
    let user_id = match parse_identifier(req.user_id.as_str()) {
        Some(uid) => uid,
        None => {
            return Err(GenericJsonErrorResponse::failed_input_error("Invalid user id format"));
        },
    };
    let time_uuid_order = match parse_identifier(req.time_uuid_order.as_str()) {
        Some(tuid) => tuid,
        None => {
            return Err(
                GenericJsonErrorResponse::failed_input_error("Invalid time_uuid_order format"),
            );
        },
    };
    Ok(update_full_name_and_age_query(user_id, time_uuid_order, req.age, req.full_name.clone()))
}

/// The envelope the update handler answers with.
pub fn update_user_profile_response(executed: bool) -> (r: Result<
    GenericJsonSuccessResponse<String>,
    GenericJsonErrorResponse,
>)
    ensures
        r is Ok <==> executed,
        executed ==> (r matches Ok(s) && s.custom_status@ == spec_status_success() && s.message@
            == "User profile updated successfully"@ && s.status == 200 && s.data is None),
        !executed ==> (r matches Err(e) && spec_is_input_failure(e, "Could not update profile"@)),
{
    if executed {
        Ok(
            GenericJsonSuccessResponse::generic_success_response(
                String::from_str(CustomStatusMessage::user_request_success()),
                String::from_str("User profile updated successfully"),
                200,
                None,
            ),
        )
    } else {
        Err(GenericJsonErrorResponse::failed_input_error("Could not update profile"))
    }
}

/// The delete statement for a delete request, with the same
/// parse-then-execute staging and field-naming failures as update.
pub fn prepare_delete_user_profile(req: &DeleteUserProfileJsonREQUEST) -> (r: Result<
    CqlStatement,
    GenericJsonErrorResponse,
>)
    ensures
        r is Ok <==> spec_uuid_parse(req.user_id@) is Some && spec_uuid_parse(
            req.time_uuid_order@,
        ) is Some,
        spec_uuid_parse(req.user_id@) is None ==> (r matches Err(e) && spec_is_input_failure(
            e,
            "Invalid user id format"@,
        )),
        spec_uuid_parse(req.user_id@) is Some && spec_uuid_parse(req.time_uuid_order@) is None
            ==> (r matches Err(e) && spec_is_input_failure(e, "Invalid time_uuid_order format"@)),
        (spec_uuid_parse(req.user_id@) is Some && spec_uuid_parse(req.time_uuid_order@) is Some)
            ==> (r matches Ok(stmt) && stmt.text@ == spec_delete_text() && stmt.values@ =~= seq![
            CqlValue::Id(spec_uuid_parse(req.user_id@)->Some_0),
            CqlValue::Id(spec_uuid_parse(req.time_uuid_order@)->Some_0),
        ]),
{
    let user_id = match parse_identifier(req.user_id.as_str()) {
        Some(uid) => uid,
        None => {
            return Err(GenericJsonErrorResponse::failed_input_error("Invalid user id format"));
        },
    };
    let time_uuid = match parse_identifier(req.time_uuid_order.as_str()) {
        Some(tuid) => tuid,
        None => {
            return Err(
                GenericJsonErrorResponse::failed_input_error("Invalid time_uuid_order format"),
            );
        },
    };
    Ok(delete_user_profile_query(user_id, time_uuid))
}

/// The envelope the delete handler answers with.
pub fn delete_user_profile_response(executed: bool) -> (r: Result<
    GenericJsonSuccessResponse<String>,
    GenericJsonErrorResponse,
>)
    ensures
        r is Ok <==> executed,
        executed ==> (r matches Ok(s) && s.custom_status@ == spec_status_success() && s.message@
            == "Successfuly deleted profile"@ && s.status == 200 && s.data is None),
        !executed ==> (r matches Err(e) && spec_is_input_failure(
            e,
            "Could not delete user profile"@,
        )),
{
    if executed {
        Ok(
            GenericJsonSuccessResponse::generic_success_response(
                String::from_str(CustomStatusMessage::user_request_success()),
                String::from_str("Successfuly deleted profile"),
                200,
                None,
            ),
        )
    } else {
        Err(GenericJsonErrorResponse::failed_input_error("Could not delete user profile"))
    }
}

} // verus!
