//! A model of the `user_profile` table under the four queries the
//! library builds. It gives the queries their meaning — insert upserts
//! by primary key, select filters on `user_id` and `email_address`,
//! update rewrites only `age` and `full_name` of the keyed row, delete
//! removes the keyed row — and the laws at the end are proved against
//! it. Tests run against this model in place of a live session.

use vstd::prelude::*;
use crate::ycql_db_schema_and_queries::UserProfileRowStruct;

verus! {

/// The primary key of a row: the random partition key together with
/// the time-ordered clustering key.
pub open spec fn spec_row_key(row: UserProfileRowStruct) -> (u128, u128) {
    (row.user_id, row.time_uuid_order)
}

/// No two rows share a primary key.
pub open spec fn spec_unique_keys(rows: Seq<UserProfileRowStruct>) -> bool {
    forall|i: int, j: int|
        0 <= i < j < rows.len() ==> spec_row_key(rows[i]) != spec_row_key(rows[j])
}

/// Whether a row is hit by the read filter on `user_id` and
/// `email_address`.
pub open spec fn spec_matches_read(
    row: UserProfileRowStruct,
    user_id: u128,
    email_address: Seq<char>,
) -> bool {
    row.user_id == user_id && row.email_address@ == email_address
}

/// The rows the select query returns: the rows hit by the read filter,
/// in table order.
pub open spec fn spec_select(
    rows: Seq<UserProfileRowStruct>,
    user_id: u128,
    email_address: Seq<char>,
) -> Seq<UserProfileRowStruct>
    decreases rows.len(),
{
    if rows.len() == 0 {
        Seq::empty()
    } else {
        let rest = spec_select(rows.drop_last(), user_id, email_address);
        if spec_matches_read(rows.last(), user_id, email_address) {
            rest.push(rows.last())
        } else {
            rest
        }
    }
}

/// A row after the update query: only `age` and `full_name` change.
pub open spec fn spec_updated_row(
    row: UserProfileRowStruct,
    age: i8,
    full_name: String,
) -> UserProfileRowStruct {
    UserProfileRowStruct {
        user_id: row.user_id,
        time_uuid_order: row.time_uuid_order,
        email_address: row.email_address,
        full_name: full_name,
        age: age,
        comment: row.comment,
    }
}

/// The table after the update query: the row keyed by
/// `(user_id, time_uuid_order)`, if any, has its `age` and `full_name`
/// rewritten; every other row is untouched.
pub open spec fn spec_update(
    rows: Seq<UserProfileRowStruct>,
    user_id: u128,
    time_uuid_order: u128,
    age: i8,
    full_name: String,
) -> Seq<UserProfileRowStruct> {
    Seq::new(
        rows.len(),
        |i: int|
            if spec_row_key(rows[i]) == (user_id, time_uuid_order) {
                spec_updated_row(rows[i], age, full_name)
            } else {
                rows[i]
            },
    )
}

/// The table after the delete query: the rows whose key differs, in
/// table order.
pub open spec fn spec_delete(
    rows: Seq<UserProfileRowStruct>,
    user_id: u128,
    time_uuid_order: u128,
) -> Seq<UserProfileRowStruct>
    decreases rows.len(),
{
    if rows.len() == 0 {
        Seq::empty()
    } else {
        let rest = spec_delete(rows.drop_last(), user_id, time_uuid_order);
        if spec_row_key(rows.last()) == (user_id, time_uuid_order) {
            rest
        } else {
            rest.push(rows.last())
        }
    }
}

/// Whether some row already carries this primary key.
pub open spec fn spec_has_key(rows: Seq<UserProfileRowStruct>, key: (u128, u128)) -> bool {
    exists|i: int| 0 <= i < rows.len() && spec_row_key(rows[i]) == key
}

/// The table after the insert query: a fresh key appends the row; an
/// existing key is overwritten in place (YCQL inserts upsert).
pub open spec fn spec_insert(
    rows: Seq<UserProfileRowStruct>,
    row: UserProfileRowStruct,
) -> Seq<UserProfileRowStruct> {
    if spec_has_key(rows, spec_row_key(row)) {
        let i = choose|i: int| 0 <= i < rows.len() && spec_row_key(rows[i]) == spec_row_key(row);
        rows.update(i, row)
    } else {
        rows.push(row)
    }
}

/// The `user_profile` table, as the four queries see it.
pub struct UserProfileTable {
    pub rows: Vec<UserProfileRowStruct>,
}

impl UserProfileTable {
    /// No two rows of a well-formed table share a primary key.
    pub open spec fn wf(self) -> bool {
        spec_unique_keys(self.rows@)
    }

    /// An empty table.
    pub fn new() -> (r: UserProfileTable)
        ensures
            r.rows@ =~= Seq::<UserProfileRowStruct>::empty(),
            r.wf(),
    {
        UserProfileTable { rows: Vec::new() }
    }

    /// How many rows the table holds.
    pub fn len(&self) -> (r: usize)
        ensures
            r == self.rows@.len(),
    {
        self.rows.len()
    }

    /// The position of the row keyed by `(user_id, time_uuid_order)`,
    /// if the table holds one.
    pub fn find_key(&self, user_id: u128, time_uuid_order: u128) -> (r: Option<usize>)
        ensures
            match r {
                Some(i) => i < self.rows@.len() && spec_row_key(self.rows@[i as int]) == (
                    user_id,
                    time_uuid_order,
                ),
                None => !spec_has_key(self.rows@, (user_id, time_uuid_order)),
            },
    {
        let n = self.rows.len();
        let mut i: usize = 0;
        while i < n
            invariant
                i <= n,
                n == self.rows@.len(),
                forall|j: int|
                    0 <= j < i ==> spec_row_key(self.rows@[j]) != (user_id, time_uuid_order),
            decreases n - i,
        {
            if self.rows[i].user_id == user_id && self.rows[i].time_uuid_order == time_uuid_order {
                return Some(i);
            }
            i = i + 1;
        }
        None
    }

    /// Executes the insert query: upserts the row by its primary key.
    pub fn insert(&mut self, row: UserProfileRowStruct)
        requires
            old(self).wf(),
        ensures
            final(self).rows@ =~= spec_insert(old(self).rows@, row),
            final(self).wf(),
            !spec_has_key(old(self).rows@, spec_row_key(row)) ==> final(self).rows@ =~= old(
                self,
            ).rows@.push(row),
    {
        let ghost key = spec_row_key(row);
        match self.find_key(row.user_id, row.time_uuid_order) {
            Some(i) => {
                let ghost old_rows = self.rows@;
                self.rows[i] = row;
                proof {
                    assert(spec_has_key(old_rows, key));
                    let w = choose|w: int|
                        0 <= w < old_rows.len() && spec_row_key(old_rows[w]) == key;
                    assert(w == i);
                    assert(self.rows@ =~= spec_insert(old_rows, row));
                    assert forall|a: int, b: int|
                        0 <= a < b < self.rows@.len() implies spec_row_key(self.rows@[a])
                        != spec_row_key(self.rows@[b]) by {
                        assert(spec_row_key(old_rows[a]) != spec_row_key(old_rows[b]));
                    }
                }
            },
            None => {
                self.rows.push(row);
            },
        }
    }

    /// Executes the select query: every row hit by the filter on
    /// `user_id` and `email_address`, in table order.
    pub fn select(&self, user_id: u128, email_address: &String) -> (r: Vec<UserProfileRowStruct>)
        ensures
            r@ =~= spec_select(self.rows@, user_id, email_address@),
    {
        let mut out: Vec<UserProfileRowStruct> = Vec::new();
        let n = self.rows.len();
        let mut i: usize = 0;
        while i < n
            invariant
                i <= n,
                n == self.rows@.len(),
                out@ =~= spec_select(self.rows@.take(i as int), user_id, email_address@),
            decreases n - i,
        {
            let row = &self.rows[i];
            if row.user_id == user_id && row.email_address == *email_address {
                out.push(row.clone());
            }
            proof {
                assert(self.rows@.take(i as int + 1).drop_last() =~= self.rows@.take(i as int));
                assert(self.rows@.take(i as int + 1).last() == self.rows@[i as int]);
            }
            i = i + 1;
        }
        proof {
            assert(self.rows@.take(n as int) =~= self.rows@);
        }
        out
    }

    /// Executes the update query: rewrites `age` and `full_name` of
    /// the row keyed by `(user_id, time_uuid_order)`, if it is there.
    pub fn update(&mut self, user_id: u128, time_uuid_order: u128, age: i8, full_name: String)
        requires
            old(self).wf(),
        ensures
            final(self).rows@ =~= spec_update(
                old(self).rows@,
                user_id,
                time_uuid_order,
                age,
                full_name,
            ),
            final(self).wf(),
    {
        let ghost key = (user_id, time_uuid_order);
        match self.find_key(user_id, time_uuid_order) {
            Some(i) => {
                let ghost old_rows = self.rows@;
                let email_address = self.rows[i].email_address.clone();
                let comment = match &self.rows[i].comment {
                    Some(c) => Some(c.clone()),
                    None => None,
                };
                self.rows[i] = UserProfileRowStruct {
                    user_id,
                    time_uuid_order,
                    email_address,
                    full_name,
                    age,
                    comment,
                };
                proof {
                    assert forall|j: int|
                        0 <= j < old_rows.len() && j != i implies spec_row_key(old_rows[j])
                        != key by {
                        if j < i {
                            assert(spec_row_key(old_rows[j]) != spec_row_key(old_rows[i as int]));
                        } else {
                            assert(spec_row_key(old_rows[i as int]) != spec_row_key(old_rows[j]));
                        }
                    }
                    assert(self.rows@ =~= spec_update(
                        old_rows,
                        user_id,
                        time_uuid_order,
                        age,
                        full_name,
                    ));
                    assert forall|a: int, b: int|
                        0 <= a < b < self.rows@.len() implies spec_row_key(self.rows@[a])
                        != spec_row_key(self.rows@[b]) by {
                        assert(spec_row_key(old_rows[a]) != spec_row_key(old_rows[b]));
                    }
                }
            },
            None => {
                proof {
                    assert(self.rows@ =~= spec_update(
                        self.rows@,
                        user_id,
                        time_uuid_order,
                        age,
                        full_name,
                    ));
                }
            },
        }
    }

    /// Executes the delete query: removes the row keyed by
    /// `(user_id, time_uuid_order)`, if it is there.
    pub fn delete(&mut self, user_id: u128, time_uuid_order: u128)
        requires
            old(self).wf(),
        ensures
            final(self).rows@ =~= spec_delete(old(self).rows@, user_id, time_uuid_order),
            final(self).wf(),
    {
        let mut out: Vec<UserProfileRowStruct> = Vec::new();
        let n = self.rows.len();
        let mut i: usize = 0;
        while i < n
            invariant
                i <= n,
                n == self.rows@.len(),
                out@ =~= spec_delete(self.rows@.take(i as int), user_id, time_uuid_order),
            decreases n - i,
        {
            let row = &self.rows[i];
            if !(row.user_id == user_id && row.time_uuid_order == time_uuid_order) {
                out.push(row.clone());
            }
            proof {
                assert(self.rows@.take(i as int + 1).drop_last() =~= self.rows@.take(i as int));
                assert(self.rows@.take(i as int + 1).last() == self.rows@[i as int]);
            }
            i = i + 1;
        }
        proof {
            assert(self.rows@.take(n as int) =~= self.rows@);
            lemma_delete_keeps_unique_keys(self.rows@, user_id, time_uuid_order);
        }
        self.rows = out;
    }
}

/// Every row the delete result keeps stands in the original table.
proof fn lemma_delete_sub(rows: Seq<UserProfileRowStruct>, user_id: u128, time_uuid_order: u128)
    ensures
        forall|i: int|
            0 <= i < spec_delete(rows, user_id, time_uuid_order).len() ==> rows.contains(
                #[trigger] spec_delete(rows, user_id, time_uuid_order)[i],
            ),
    decreases rows.len(),
{
    if rows.len() > 0 {
        lemma_delete_sub(rows.drop_last(), user_id, time_uuid_order);
        let out = spec_delete(rows, user_id, time_uuid_order);
        let rest = spec_delete(rows.drop_last(), user_id, time_uuid_order);
        assert forall|i: int| 0 <= i < out.len() implies rows.contains(#[trigger] out[i]) by {
            if i < rest.len() {
                assert(rows.drop_last().contains(rest[i]));
                let w = choose|w: int| 0 <= w < rows.drop_last().len() && rows.drop_last()[w]
                    == rest[i];
                assert(rows[w] == out[i]);
            } else {
                assert(rows[rows.len() - 1] == out[i]);
            }
        }
    }
}

/// Deleting by key preserves key uniqueness.
proof fn lemma_delete_keeps_unique_keys(
    rows: Seq<UserProfileRowStruct>,
    user_id: u128,
    time_uuid_order: u128,
)
    requires
        spec_unique_keys(rows),
    ensures
        spec_unique_keys(spec_delete(rows, user_id, time_uuid_order)),
    decreases rows.len(),
{
    if rows.len() > 0 {
        lemma_delete_keeps_unique_keys(rows.drop_last(), user_id, time_uuid_order);
        lemma_delete_sub(rows.drop_last(), user_id, time_uuid_order);
        let out = spec_delete(rows, user_id, time_uuid_order);
        let rest = spec_delete(rows.drop_last(), user_id, time_uuid_order);
        assert forall|a: int, b: int| 0 <= a < b < out.len() implies spec_row_key(out[a])
            != spec_row_key(out[b]) by {
            if b < rest.len() {
            } else if !(spec_row_key(rows.last()) == (user_id, time_uuid_order)) {
                assert(out[b] == rows.last());
                assert(rows.drop_last().contains(rest[a]));
                let w = choose|w: int| 0 <= w < rows.drop_last().len() && rows.drop_last()[w]
                    == rest[a];
                assert(spec_row_key(rows[w]) != spec_row_key(rows[rows.len() - 1]));
            }
        }
    }
}

/// Selecting a `user_id` that no row carries returns nothing.
pub proof fn lemma_select_none(rows: Seq<UserProfileRowStruct>, user_id: u128, email: Seq<char>)
    requires
        forall|i: int| 0 <= i < rows.len() ==> rows[i].user_id != user_id,
    ensures
        spec_select(rows, user_id, email) =~= Seq::<UserProfileRowStruct>::empty(),
    decreases rows.len(),
{
    if rows.len() > 0 {
        lemma_select_none(rows.drop_last(), user_id, email);
    }
}

/// Deleting a key that no row carries leaves the table as it was.
pub proof fn lemma_delete_none(rows: Seq<UserProfileRowStruct>, user_id: u128, time_uuid_order: u128)
    requires
        forall|i: int| 0 <= i < rows.len() ==> spec_row_key(rows[i]) != (user_id, time_uuid_order),
    ensures
        spec_delete(rows, user_id, time_uuid_order) =~= rows,
    decreases rows.len(),
{
    if rows.len() > 0 {
        lemma_delete_none(rows.drop_last(), user_id, time_uuid_order);
        assert(spec_delete(rows, user_id, time_uuid_order) =~= rows.drop_last().push(rows.last()));
    }
}

/// The round trip behind a profile's lifecycle, over any starting
/// table that does not hold its (randomly minted) `user_id`: a created
/// row is read back exactly; after the update the read returns the row
/// with only `age` and `full_name` rewritten; after the delete the
/// read returns the empty sequence, not an error.
pub proof fn lemma_round_trip(
    rows: Seq<UserProfileRowStruct>,
    row: UserProfileRowStruct,
    age2: i8,
    full_name2: String,
)
    requires
        spec_unique_keys(rows),
        forall|i: int| 0 <= i < rows.len() ==> rows[i].user_id != row.user_id,
    ensures
        spec_select(spec_insert(rows, row), row.user_id, row.email_address@) =~= seq![row],
        spec_select(
            spec_update(
                spec_insert(rows, row),
                row.user_id,
                row.time_uuid_order,
                age2,
                full_name2,
            ),
            row.user_id,
            row.email_address@,
        ) =~= seq![spec_updated_row(row, age2, full_name2)],
        spec_select(
            spec_delete(
                spec_update(
                    spec_insert(rows, row),
                    row.user_id,
                    row.time_uuid_order,
                    age2,
                    full_name2,
                ),
                row.user_id,
                row.time_uuid_order,
            ),
            row.user_id,
            row.email_address@,
        ) =~= Seq::<UserProfileRowStruct>::empty(),
{
    let uid = row.user_id;
    let email = row.email_address@;
    assert(!spec_has_key(rows, spec_row_key(row)));
    let t1 = spec_insert(rows, row);
    assert(t1 =~= rows.push(row));
    lemma_select_none(rows, uid, email);
    assert(t1.drop_last() =~= rows);
    assert(spec_select(t1, uid, email) =~= seq![row]);

    let row2 = spec_updated_row(row, age2, full_name2);
    let t2 = spec_update(t1, uid, row.time_uuid_order, age2, full_name2);
    assert forall|i: int| 0 <= i < rows.len() implies t2[i] == rows[i] by {
        assert(rows[i].user_id != uid);
    }
    assert(t2[rows.len() as int] == row2);
    assert(t2 =~= rows.push(row2));
    assert(t2.drop_last() =~= rows);
    assert(spec_select(t2, uid, email) =~= seq![row2]);

    let t3 = spec_delete(t2, uid, row.time_uuid_order);
    assert(t3 =~= spec_delete(rows, uid, row.time_uuid_order));
    lemma_delete_none(rows, uid, row.time_uuid_order);
    assert(t3 =~= rows);
    lemma_select_none(t3, uid, email);
}

/// The table after creating each of `news` in turn, oldest first.
pub open spec fn spec_insert_all(
    rows: Seq<UserProfileRowStruct>,
    news: Seq<UserProfileRowStruct>,
) -> Seq<UserProfileRowStruct>
    decreases news.len(),
{
    if news.len() == 0 {
        rows
    } else {
        spec_insert(spec_insert_all(rows, news.drop_last()), news.last())
    }
}

/// Creations serialized behind the shared session lose nothing: rows
/// whose keys are pairwise distinct and absent from the table all land,
/// in order, and the table grows by exactly their number.
pub proof fn lemma_serialized_creates_land(
    rows: Seq<UserProfileRowStruct>,
    news: Seq<UserProfileRowStruct>,
)
    requires
        spec_unique_keys(rows),
        spec_unique_keys(news),
        forall|i: int, j: int|
            0 <= i < rows.len() && 0 <= j < news.len() ==> spec_row_key(rows[i]) != spec_row_key(
                news[j],
            ),
    ensures
        spec_insert_all(rows, news) =~= rows + news,
        spec_insert_all(rows, news).len() == rows.len() + news.len(),
        spec_unique_keys(rows + news),
    decreases news.len(),
{
    if news.len() == 0 {
        assert(spec_insert_all(rows, news) =~= rows + news);
    } else {
        let head = news.drop_last();
        let last = news.last();
        lemma_serialized_creates_land(rows, head);
        let t = spec_insert_all(rows, head);
        assert(t =~= rows + head);
        assert forall|i: int| 0 <= i < t.len() implies spec_row_key(t[i]) != spec_row_key(
            last,
        ) by {
            if i < rows.len() {
                assert(t[i] == rows[i]);
            } else {
                assert(t[i] == news[i - rows.len()]);
                assert(spec_row_key(news[i - rows.len()]) != spec_row_key(
                    news[news.len() - 1],
                ));
            }
        }
        assert(!spec_has_key(t, spec_row_key(last)));
        assert(spec_insert_all(rows, news) =~= t.push(last));
        assert(t.push(last) =~= rows + news);
        assert forall|a: int, b: int|
            0 <= a < b < (rows + news).len() implies spec_row_key((rows + news)[a])
            != spec_row_key((rows + news)[b]) by {
            if b < rows.len() {
            } else if a < rows.len() {
                assert((rows + news)[a] == rows[a]);
                assert((rows + news)[b] == news[b - rows.len()]);
            } else {
                assert((rows + news)[a] == news[a - rows.len()]);
                assert((rows + news)[b] == news[b - rows.len()]);
            }
        }
    }
}

} // verus!

