use user_profile_service::crud_controller::DeleteUserProfileJsonREQUEST;
use user_profile_service::crud_controller::ReadUserProfileJsonREQUEST;
use user_profile_service::crud_controller::UpdateUserProfileJsonREQUEST;
use user_profile_service::crud_controller::UserProfileJsonREQUEST;
use user_profile_service::crud_controller::create_user_profile_response;
use user_profile_service::crud_controller::delete_user_profile_response;
use user_profile_service::crud_controller::get_epoch_ms;
use user_profile_service::crud_controller::prepare_create_user_profile;
use user_profile_service::crud_controller::prepare_delete_user_profile;
use user_profile_service::crud_controller::prepare_read_user_profile;
use user_profile_service::crud_controller::prepare_update_user_profile;
use user_profile_service::crud_controller::read_user_profile_response;
use user_profile_service::crud_controller::update_user_profile_response;
use user_profile_service::identifiers::IdGenerator;
use user_profile_service::identifiers::identifier_to_string;
use user_profile_service::table_model::UserProfileTable;
use user_profile_service::ycql_db_schema_and_queries::CqlValue;
use user_profile_service::ycql_db_schema_and_queries::UserProfileRowStruct;

const INSERT_TEXT: &str = "INSERT INTO demo_ycql_service_keyspace.user_profile (user_id, time_uuid_order, email_address, full_name, age, comment) VALUES (?, ?, ?, ?, ?, ?);";
const SELECT_TEXT: &str = "SELECT * FROM demo_ycql_service_keyspace.user_profile WHERE user_id = ? AND email_address = ?;";
const UPDATE_TEXT: &str = "UPDATE demo_ycql_service_keyspace.user_profile SET age = ?, full_name = ? WHERE user_id = ? AND time_uuid_order = ?;";
const DELETE_TEXT: &str = "DELETE FROM demo_ycql_service_keyspace.user_profile WHERE user_id = ? AND time_uuid_order = ?;";

fn create_request() -> UserProfileJsonREQUEST {
    UserProfileJsonREQUEST {
        email_address: String::from("a@x.com"),
        full_name: String::from("A B"),
        age: 30,
        comment: Some(String::from("ignored on create")),
    }
}

#[test]
fn epoch_clock_runs_in_milliseconds() {
    let ms = get_epoch_ms();
    // Well after 2001-09-09, the moment the millisecond count passed 10^12.
    assert!(ms > 1_000_000_000_000);
}

#[test]
fn create_mints_ids_and_forces_comment_absent() {
    let mut gen = IdGenerator::new();
    let (row, statement) = prepare_create_user_profile(&mut gen, &create_request());
    assert_ne!(row.user_id, 0);
    assert_ne!(row.time_uuid_order, 0);
    assert_eq!((row.user_id >> 76) & 0xF, 4);
    assert_eq!((row.user_id >> 62) & 0x3, 0b10);
    assert_eq!((row.time_uuid_order >> 76) & 0xF, 1);
    assert_eq!((row.time_uuid_order >> 62) & 0x3, 0b10);
    assert_eq!(row.email_address, "a@x.com");
    assert_eq!(row.full_name, "A B");
    assert_eq!(row.age, 30);
    assert_eq!(row.comment, None);
    assert_eq!(statement.text, INSERT_TEXT);
    assert_eq!(statement.values.len(), 6);
    assert_eq!(statement.values[0], ("user_id", CqlValue::Id(row.user_id)));
    assert_eq!(
        statement.values[1],
        ("time_uuid_order", CqlValue::Id(row.time_uuid_order))
    );
    assert_eq!(
        statement.values[2],
        ("email_address", CqlValue::Text(String::from("a@x.com")))
    );
    assert_eq!(
        statement.values[3],
        ("full_name", CqlValue::Text(String::from("A B")))
    );
    assert_eq!(statement.values[4], ("age", CqlValue::TinyInt(30)));
    assert_eq!(statement.values[5], ("comment", CqlValue::OptionalText(None)));
}

#[test]
fn read_statement_filters_on_both_fields() {
    let req = ReadUserProfileJsonREQUEST {
        user_id: 7,
        email_address: String::from("a@x.com"),
    };
    let statement = prepare_read_user_profile(&req);
    assert_eq!(statement.text, SELECT_TEXT);
    assert_eq!(
        statement.values,
        vec![CqlValue::Id(7), CqlValue::Text(String::from("a@x.com"))]
    );
}

#[test]
fn update_with_invalid_user_id_fails_before_any_query() {
    let req = UpdateUserProfileJsonREQUEST {
        user_id: String::from("not-a-uuid"),
        time_uuid_order: identifier_to_string(9),
        age: 31,
        full_name: String::from("A B"),
    };
    let e = prepare_update_user_profile(&req).err().unwrap();
    assert_eq!(e.custom_status, "FAILED");
    assert_eq!(
        e.message,
        "Input error for reference check: Invalid user id format"
    );
    assert_eq!(e.status, 401);
}

#[test]
fn update_with_invalid_time_uuid_fails_before_any_query() {
    let req = UpdateUserProfileJsonREQUEST {
        user_id: identifier_to_string(9),
        time_uuid_order: String::from("zz"),
        age: 31,
        full_name: String::from("A B"),
    };
    let e = prepare_update_user_profile(&req).err().unwrap();
    assert_eq!(
        e.message,
        "Input error for reference check: Invalid time_uuid_order format"
    );
    assert_eq!(e.status, 401);
}

#[test]
fn update_with_valid_identifiers_binds_in_placeholder_order() {
    let req = UpdateUserProfileJsonREQUEST {
        user_id: identifier_to_string(9),
        time_uuid_order: identifier_to_string(11),
        age: 31,
        full_name: String::from("New Name"),
    };
    let statement = prepare_update_user_profile(&req).ok().unwrap();
    assert_eq!(statement.text, UPDATE_TEXT);
    assert_eq!(
        statement.values,
        vec![
            CqlValue::TinyInt(31),
            CqlValue::Text(String::from("New Name")),
            CqlValue::Id(9),
            CqlValue::Id(11),
        ]
    );
}

#[test]
fn delete_with_invalid_user_id_fails_before_any_query() {
    let req = DeleteUserProfileJsonREQUEST {
        time_uuid_order: identifier_to_string(11),
        user_id: String::from(""),
    };
    let e = prepare_delete_user_profile(&req).err().unwrap();
    assert_eq!(
        e.message,
        "Input error for reference check: Invalid user id format"
    );
    assert_eq!(e.status, 401);
}

#[test]
fn delete_with_invalid_time_uuid_fails_before_any_query() {
    let req = DeleteUserProfileJsonREQUEST {
        time_uuid_order: String::from("11"),
        user_id: identifier_to_string(9),
    };
    let e = prepare_delete_user_profile(&req).err().unwrap();
    assert_eq!(
        e.message,
        "Input error for reference check: Invalid time_uuid_order format"
    );
    assert_eq!(e.status, 401);
}

#[test]
fn delete_with_valid_identifiers_binds_both_keys() {
    let req = DeleteUserProfileJsonREQUEST {
        time_uuid_order: identifier_to_string(11),
        user_id: identifier_to_string(9),
    };
    let statement = prepare_delete_user_profile(&req).ok().unwrap();
    assert_eq!(statement.text, DELETE_TEXT);
    assert_eq!(statement.values, vec![CqlValue::Id(9), CqlValue::Id(11)]);
}

#[test]
fn read_of_unknown_user_returns_empty_success() {
    let table = UserProfileTable::new();
    let rows = table.select(42, &String::from("a@x.com"));
    assert_eq!(rows, Vec::<UserProfileRowStruct>::new());
    let envelope = read_user_profile_response(Some(rows)).ok().unwrap();
    assert_eq!(envelope.status, 200);
    assert_eq!(envelope.data, Some(Vec::new()));
}

#[test]
fn profile_round_trip_through_the_table() {
    let mut gen = IdGenerator::new();
    let mut table = UserProfileTable::new();

    // Create: {email_address:"a@x.com", full_name:"A B", age:30}.
    let (row, _statement) = prepare_create_user_profile(&mut gen, &create_request());
    table.insert(row.clone());
    let created = create_user_profile_response(true).ok().unwrap();
    assert_eq!(created.status, 200);
    assert_eq!(created.data, None);

    // Read back by user_id and email_address.
    let found = table.select(row.user_id, &String::from("a@x.com"));
    assert_eq!(found.len(), 1);
    assert_eq!(found[0].email_address, "a@x.com");
    assert_eq!(found[0].full_name, "A B");
    assert_eq!(found[0].age, 30);

    // Update age and full_name through the returned identifiers.
    let update_req = UpdateUserProfileJsonREQUEST {
        user_id: identifier_to_string(row.user_id),
        time_uuid_order: identifier_to_string(row.time_uuid_order),
        age: 31,
        full_name: String::from("A B"),
    };
    let statement = prepare_update_user_profile(&update_req).ok().unwrap();
    assert_eq!(
        statement.values[2..],
        [CqlValue::Id(row.user_id), CqlValue::Id(row.time_uuid_order)]
    );
    table.update(row.user_id, row.time_uuid_order, 31, String::from("A B"));
    assert!(update_user_profile_response(true).is_ok());
    let found = table.select(row.user_id, &String::from("a@x.com"));
    assert_eq!(found.len(), 1);
    assert_eq!(found[0].age, 31);
    assert_eq!(found[0].full_name, "A B");
    assert_eq!(found[0].time_uuid_order, row.time_uuid_order);

    // Delete through the same identifiers.
    let delete_req = DeleteUserProfileJsonREQUEST {
        time_uuid_order: identifier_to_string(row.time_uuid_order),
        user_id: identifier_to_string(row.user_id),
    };
    assert!(prepare_delete_user_profile(&delete_req).is_ok());
    table.delete(row.user_id, row.time_uuid_order);
    assert!(delete_user_profile_response(true).is_ok());

    // A read after the delete is a success with no rows.
    let found = table.select(row.user_id, &String::from("a@x.com"));
    assert_eq!(found.len(), 0);
    let envelope = read_user_profile_response(Some(found)).ok().unwrap();
    assert_eq!(envelope.status, 200);
    assert_eq!(envelope.data, Some(Vec::new()));
}

#[test]
fn update_of_missing_key_changes_nothing() {
    let mut gen = IdGenerator::new();
    let mut table = UserProfileTable::new();
    let (row, _) = prepare_create_user_profile(&mut gen, &create_request());
    table.insert(row.clone());
    table.update(row.user_id, row.time_uuid_order.wrapping_add(1), 99, String::from("X"));
    let found = table.select(row.user_id, &String::from("a@x.com"));
    assert_eq!(found, vec![row]);
}

#[test]
fn insert_with_same_key_overwrites() {
    let mut gen = IdGenerator::new();
    let mut table = UserProfileTable::new();
    let (row, _) = prepare_create_user_profile(&mut gen, &create_request());
    table.insert(row.clone());
    let mut replacement = row.clone();
    replacement.full_name = String::from("Rewritten");
    table.insert(replacement);
    assert_eq!(table.len(), 1);
    let found = table.select(row.user_id, &String::from("a@x.com"));
    assert_eq!(found[0].full_name, "Rewritten");
}

#[test]
fn serialized_creates_from_many_clients_all_land() {
    let clients = 8;
    let mut gen = IdGenerator::new();
    let mut table = UserProfileTable::new();
    let mut ids = Vec::new();
    for i in 0..clients {
        let req = UserProfileJsonREQUEST {
            email_address: format!("client{}@x.com", i),
            full_name: format!("Client {}", i),
            age: 20,
            comment: None,
        };
        let (row, _) = prepare_create_user_profile(&mut gen, &req);
        ids.push((row.user_id, row.time_uuid_order));
        table.insert(row);
        assert!(create_user_profile_response(true).is_ok());
    }
    assert_eq!(table.len(), clients);
    for a in 0..clients {
        for b in (a + 1)..clients {
            assert_ne!(ids[a], ids[b]);
        }
    }
}
