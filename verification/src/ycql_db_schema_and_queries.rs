//! The `user_profile` table schema and the four parameterized queries
//! (insert, select, update, delete) over it, built as plain data: the
//! fixed statement text plus the bound values in the exact column
//! order. The session layer outside the library turns these into
//! driver-level statements and executes them.

use vstd::prelude::*;

verus! {

/// One value bound into a parameterized YCQL statement.
#[derive(PartialEq, Eq, Clone, Debug)]
pub enum CqlValue {
    /// A 128-bit identifier column (`UUID` or `TIMEUUID`).
    Id(u128),
    /// A `TEXT` column.
    Text(String),
    /// A `TINYINT` column.
    TinyInt(i8),
    /// A nullable `TEXT` column.
    OptionalText(Option<String>),
}

/// A statement whose placeholders are bound positionally.
pub struct CqlStatement {
    pub text: &'static str,
    pub values: Vec<CqlValue>,
}

/// A statement whose placeholders are bound through column names, so
/// that a value can never drift to the wrong column.
pub struct NamedCqlStatement {
    pub text: &'static str,
    pub values: Vec<(&'static str, CqlValue)>,
}

/// One row of the `user_profile` table. The pair
/// `(user_id, time_uuid_order)` is the primary key: `user_id` is the
/// random partition key and `time_uuid_order` the time-ordered
/// clustering key.
#[derive(PartialEq, Eq, Debug)]
pub struct UserProfileRowStruct {
    pub user_id: u128,
    pub time_uuid_order: u128,
    pub email_address: String,
    pub full_name: String,
    pub age: i8,
    pub comment: Option<String>,
}

impl Clone for UserProfileRowStruct {
    /// A clone carries the same six field values.
    fn clone(&self) -> (r: Self)
        ensures
            r == *self,
    {
        UserProfileRowStruct {
            user_id: self.user_id,
            time_uuid_order: self.time_uuid_order,
            email_address: self.email_address.clone(),
            full_name: self.full_name.clone(),
            age: self.age,
            comment: match &self.comment {
                Some(c) => Some(c.clone()),
                None => None,
            },
        }
    }
}

impl UserProfileRowStruct {
    /// The named bindings of this row, one per column, in column order.
    pub fn into_query_values(self) -> (r: Vec<(&'static str, CqlValue)>)
        ensures
            r@ =~= spec_row_query_values(self),
    {
        let mut values: Vec<(&'static str, CqlValue)> = Vec::new();
        values.push(("user_id", CqlValue::Id(self.user_id)));
        values.push(("time_uuid_order", CqlValue::Id(self.time_uuid_order)));
        values.push(("email_address", CqlValue::Text(self.email_address)));
        values.push(("full_name", CqlValue::Text(self.full_name)));
        values.push(("age", CqlValue::TinyInt(self.age)));
        values.push(("comment", CqlValue::OptionalText(self.comment)));
        values
    }

    /// Builds a row from its six fields, unchanged.
    pub fn build_user_profile(
        user_id: u128,
        time_uuid_order: u128,
        email_address: String,
        full_name: String,
        age: i8,
        comment: Option<String>,
    ) -> (r: UserProfileRowStruct)
        ensures
            r == (UserProfileRowStruct {
                user_id,
                time_uuid_order,
                email_address,
                full_name,
                age,
                comment,
            }),
    {
        UserProfileRowStruct { user_id, time_uuid_order, email_address, full_name, age, comment }
    }
}

/// The named bindings of a row: every column, in column order.
pub open spec fn spec_row_query_values(row: UserProfileRowStruct) -> Seq<
    (&'static str, CqlValue),
> {
    seq![
        ("user_id", CqlValue::Id(row.user_id)),
        ("time_uuid_order", CqlValue::Id(row.time_uuid_order)),
        ("email_address", CqlValue::Text(row.email_address)),
        ("full_name", CqlValue::Text(row.full_name)),
        ("age", CqlValue::TinyInt(row.age)),
        ("comment", CqlValue::OptionalText(row.comment)),
    ]
}

pub open spec fn spec_insert_text() -> Seq<char> {
    "INSERT INTO demo_ycql_service_keyspace.user_profile (user_id, time_uuid_order, email_address, full_name, age, comment) VALUES (?, ?, ?, ?, ?, ?);"@
}

pub open spec fn spec_select_text() -> Seq<char> {
    "SELECT * FROM demo_ycql_service_keyspace.user_profile WHERE user_id = ? AND email_address = ?;"@
}

pub open spec fn spec_update_text() -> Seq<char> {
    "UPDATE demo_ycql_service_keyspace.user_profile SET age = ?, full_name = ? WHERE user_id = ? AND time_uuid_order = ?;"@
}

pub open spec fn spec_delete_text() -> Seq<char> {
    "DELETE FROM demo_ycql_service_keyspace.user_profile WHERE user_id = ? AND time_uuid_order = ?;"@
}

/// The insert statement for a fully populated row: all six columns,
/// bound by name.
pub fn create_new_user_profile_query(user_profile_row: UserProfileRowStruct) -> (r:
    NamedCqlStatement)
    ensures
        r.text@ == spec_insert_text(),
        r.values@ =~= spec_row_query_values(user_profile_row),
{
    NamedCqlStatement {
        text: "INSERT INTO demo_ycql_service_keyspace.user_profile (user_id, time_uuid_order, email_address, full_name, age, comment) VALUES (?, ?, ?, ?, ?, ?);",
        values: user_profile_row.into_query_values(),
    }
}

/// The select statement filtering on `user_id` and `email_address`,
/// in that order.
pub fn select_user_profile_query(user_id: u128, email_address: String) -> (r: CqlStatement)
    ensures
        r.text@ == spec_select_text(),
        r.values@ =~= seq![CqlValue::Id(user_id), CqlValue::Text(email_address)],
{
    let mut values: Vec<CqlValue> = Vec::new();
    values.push(CqlValue::Id(user_id));
    values.push(CqlValue::Text(email_address));
    CqlStatement {
        text: "SELECT * FROM demo_ycql_service_keyspace.user_profile WHERE user_id = ? AND email_address = ?;",
        values,
    }
}

/// The update statement setting only `age` and `full_name`, keyed on
/// both identifiers; bound in the order the placeholders appear.
pub fn update_full_name_and_age_query(
    user_id: u128,
    time_uuid_order: u128,
    age: i8,
    full_name: String,
) -> (r: CqlStatement)
    ensures
        r.text@ == spec_update_text(),
        r.values@ =~= seq![
            CqlValue::TinyInt(age),
            CqlValue::Text(full_name),
            CqlValue::Id(user_id),
            CqlValue::Id(time_uuid_order),
        ],
{
    let mut values: Vec<CqlValue> = Vec::new();
    values.push(CqlValue::TinyInt(age));
    values.push(CqlValue::Text(full_name));
    values.push(CqlValue::Id(user_id));
    values.push(CqlValue::Id(time_uuid_order));
    CqlStatement {
        text: "UPDATE demo_ycql_service_keyspace.user_profile SET age = ?, full_name = ? WHERE user_id = ? AND time_uuid_order = ?;",
        values,
    }
}

/// The delete statement keyed on both identifiers, in that order.
pub fn delete_user_profile_query(user_id: u128, time_uuid: u128) -> (r: CqlStatement)
    ensures
        r.text@ == spec_delete_text(),
        r.values@ =~= seq![CqlValue::Id(user_id), CqlValue::Id(time_uuid)],
{
    let mut values: Vec<CqlValue> = Vec::new();
    values.push(CqlValue::Id(user_id));
    values.push(CqlValue::Id(time_uuid));
    CqlStatement {
        text: "DELETE FROM demo_ycql_service_keyspace.user_profile WHERE user_id = ? AND time_uuid_order = ?;",
        values,
    }
}

} // verus!
