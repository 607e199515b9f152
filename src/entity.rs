//! The entity persistence contract for users: the statements that each
//! operation issues, what they do to a model of the `users` table, and the
//! check-then-act choice that `persist` makes.
use crate::user::{DbUser, DbUserView};
use vstd::prelude::*;

verus! {

/// `sqlx::Error`, the database client's failure, carried through unchanged.
#[verifier::external_type_specification]
#[verifier::external_body]
pub struct ExSqlxError(sqlx::Error);

/// A parameterised statement on the `users` table, with its bound values.
#[derive(Debug)]
pub enum UserStatement {
    /// `SELECT * FROM users WHERE uuid = $1 LIMIT 1`
    SelectByUuid(String),
    /// `SELECT * FROM users WHERE role = $1 LIMIT 1`
    SelectByRole(i16),
    /// `INSERT INTO users (uuid, username, role, password_hash, created_at) VALUES (...)`
    Insert(DbUser),
    /// `UPDATE users SET username = $1, role = $2, password_hash = $3, created_at = $4 WHERE uuid = $5`
    Update(DbUser),
    /// `DELETE FROM users WHERE uuid = $1`
    Delete(String),
}

/// A statement with its bound values as plain sequences.
pub enum StatementView {
    SelectByUuid(Seq<char>),
    SelectByRole(i16),
    Insert(DbUserView),
    Update(DbUserView),
    Delete(Seq<char>),
}

impl View for UserStatement {
    type V = StatementView;

    open spec fn view(&self) -> StatementView {
        match self {
            UserStatement::SelectByUuid(id) => StatementView::SelectByUuid(id@),
            UserStatement::SelectByRole(c) => StatementView::SelectByRole(*c),
            UserStatement::Insert(r) => StatementView::Insert(r@),
            UserStatement::Update(r) => StatementView::Update(r@),
            UserStatement::Delete(id) => StatementView::Delete(id@),
        }
    }
}

impl UserStatement {
    /// The statement's text; its parameters are bound from the variant's fields
    /// in the order in which the text numbers them.
    pub fn sql(&self) -> (r: &'static str)
        ensures
            self is SelectByUuid ==> r@ == "SELECT * FROM users WHERE uuid = $1 LIMIT 1"@,
            self is SelectByRole ==> r@ == "SELECT * FROM users WHERE role = $1 LIMIT 1"@,
            self is Insert ==> r@
                == "INSERT INTO users (uuid, username, role, password_hash, created_at) VALUES ($1, $2, $3, $4, $5)"@,
            self is Update ==> r@
                == "UPDATE users SET username = $1, role = $2, password_hash = $3, created_at = $4 WHERE uuid = $5"@,
            self is Delete ==> r@ == "DELETE FROM users WHERE uuid = $1"@,
    {
        match self {
            UserStatement::SelectByUuid(_) => "SELECT * FROM users WHERE uuid = $1 LIMIT 1",
            UserStatement::SelectByRole(_) => "SELECT * FROM users WHERE role = $1 LIMIT 1",
            UserStatement::Insert(_) => "INSERT INTO users (uuid, username, role, password_hash, created_at) VALUES ($1, $2, $3, $4, $5)",
            UserStatement::Update(_) => "UPDATE users SET username = $1, role = $2, password_hash = $3, created_at = $4 WHERE uuid = $5",
            UserStatement::Delete(_) => "DELETE FROM users WHERE uuid = $1",
        }
    }
}

/// The `users` table: rows keyed by their identifier text, which the schema
/// keeps unique.
pub type Table = Map<Seq<char>, DbUserView>;

/// What a statement reports back.
pub enum Outcome {
    /// A select: the row found, if any.
    Row(Option<DbUserView>),
    /// A write that went through (an update or delete of an absent row included).
    Written,
    /// An insert whose identifier is already present: the duplicate-key failure.
    Conflict,
}

/// Some row of the table with the given role code, if there is one.
pub open spec fn row_with_role(t: Table, code: i16) -> Option<DbUserView> {
    if exists|k: Seq<char>| t.contains_key(k) && #[trigger] t[k].role == code {
        let k = choose|k: Seq<char>| t.contains_key(k) && #[trigger] t[k].role == code;
        Some(t[k])
    } else {
        None
    }
}

/// The table after a statement, and what the statement reports.
pub open spec fn run(t: Table, s: StatementView) -> (Table, Outcome) {
    match s {
        StatementView::SelectByUuid(id) => (
            t,
            Outcome::Row(
                if t.contains_key(id) {
                    Some(t[id])
                } else {
                    None
                },
            ),
        ),
        StatementView::SelectByRole(code) => (t, Outcome::Row(row_with_role(t, code))),
        StatementView::Insert(r) => if t.contains_key(r.uuid) {
            (t, Outcome::Conflict)
        } else {
            (t.insert(r.uuid, r), Outcome::Written)
        },
        StatementView::Update(r) => if t.contains_key(r.uuid) {
            (t.insert(r.uuid, r), Outcome::Written)
        } else {
            (t, Outcome::Written)
        },
        StatementView::Delete(id) => (t.remove(id), Outcome::Written),
    }
}

/// What `exists` reads from the outcome of its select.
pub open spec fn found(o: Outcome) -> bool {
    o matches Outcome::Row(Some(_))
}

/// The statement that `persist` issues once `exists` has answered.
pub open spec fn persist_choice(exists: bool, r: DbUserView) -> StatementView {
    if exists {
        StatementView::Update(r)
    } else {
        StatementView::Insert(r)
    }
}

/// `persist` run alone against a table: `exists`, then update or insert.
pub open spec fn persist_effect(t: Table, r: DbUserView) -> Table {
    let exists = found(run(t, StatementView::SelectByUuid(r.uuid)).1);
    run(t, persist_choice(exists, r)).0
}

/// The persistence contract of a storage-backed entity. Each operation names
/// the statement it issues; the caller runs it. `persist` is the second step
/// of a check-then-act upsert, taken once `exists_query` has answered; the
/// two steps are not atomic.
pub trait DbEntity: Sized {
    /// What identifies a record.
    type Identifier;
    /// The statements that the operations issue.
    type Statement;
    /// How running the `exists_query` statement fails.
    type ExistsError;
    /// How `persist` fails.
    type PersistError;

    /// The name of the table that holds the records.
    fn main_table_name() -> &'static str;

    /// The identifier of the record.
    fn get_identifier(&self) -> &Self::Identifier;

    /// The select that tells whether a record with this identifier is present.
    fn exists_query(identifier: &Self::Identifier) -> Self::Statement;

    /// The insert of this record.
    fn create(&self) -> Self::Statement;

    /// The select that fetches the record with this identifier.
    fn load(identifier: &Self::Identifier) -> Self::Statement;

    /// The update that overwrites the row with this record's identifier.
    fn update(&self) -> Self::Statement;

    /// The delete of the row with this identifier.
    fn delete(identifier: &Self::Identifier) -> Self::Statement;

    /// Given the answer of `exists_query` on this record's identifier: the
    /// update if it is present, else the insert.
    fn persist(&self, exists: Result<bool, Self::ExistsError>) -> Result<
        Self::Statement,
        Self::PersistError,
    >;
}

impl DbEntity for DbUser {
    type Identifier = String;

    type Statement = UserStatement;

    type ExistsError = sqlx::Error;

    type PersistError = sqlx::Error;

    fn main_table_name() -> (r: &'static str)
        ensures
            r@ == "users"@,
    {
        "users"
    }

    fn get_identifier(&self) -> (r: &String)
        ensures
            r@ == self.uuid@,
    {
        &self.uuid
    }

    fn exists_query(identifier: &String) -> (r: UserStatement)
        ensures
            r@ == StatementView::SelectByUuid(identifier@),
    {
        UserStatement::SelectByUuid(identifier.clone())
    }

    fn create(&self) -> (r: UserStatement)
        ensures
            r@ == StatementView::Insert(self@),
    {
        UserStatement::Insert(self.clone())
    }

    fn load(identifier: &String) -> (r: UserStatement)
        ensures
            r@ == StatementView::SelectByUuid(identifier@),
    {
        UserStatement::SelectByUuid(identifier.clone())
    }

    fn update(&self) -> (r: UserStatement)
        ensures
            r@ == StatementView::Update(self@),
    {
        UserStatement::Update(self.clone())
    }

    fn delete(identifier: &String) -> (r: UserStatement)
        ensures
            r@ == StatementView::Delete(identifier@),
    {
        UserStatement::Delete(identifier.clone())
    }

    fn persist(&self, exists: Result<bool, sqlx::Error>) -> (r: Result<
        UserStatement,
        sqlx::Error,
    >)
        ensures
            exists is Ok <==> r is Ok,
            exists is Ok ==> r->Ok_0@ == persist_choice(exists->Ok_0, self@),
            exists is Err ==> r->Err_0 == exists->Err_0,
    {
        match exists {
            Ok(true) => Ok(self.update()),
            Ok(false) => Ok(self.create()),
            Err(e) => Err(e),
        }
    }
}

/// After `create` of a new identifier, `exists` on it answers true; after
/// `delete`, it answers false.
pub proof fn lemma_create_then_exists(t: Table, r: DbUserView)
    requires
        !t.contains_key(r.uuid),
    ensures
        found(run(run(t, StatementView::Insert(r)).0, StatementView::SelectByUuid(r.uuid)).1),
        !found(run(run(t, StatementView::Delete(r.uuid)).0, StatementView::SelectByUuid(r.uuid)).1),
{
}

/// After `create` of a new identifier, `load` on it fetches the record that was
/// inserted.
pub proof fn lemma_create_then_load(t: Table, r: DbUserView)
    requires
        !t.contains_key(r.uuid),
    ensures
        run(run(t, StatementView::Insert(r)).0, StatementView::SelectByUuid(r.uuid)).1
            == Outcome::Row(Some(r)),
{
}

/// `delete` followed by `exists` on the same identifier answers false, whatever
/// the table held.
pub proof fn lemma_delete_then_exists(t: Table, id: Seq<char>)
    ensures
        !found(run(run(t, StatementView::Delete(id)).0, StatementView::SelectByUuid(id)).1),
{
}

/// Without concurrent writers, `persist` stores the record under its
/// identifier whether or not it was there, never meets the duplicate-key
/// failure, and a second `persist` of the same record changes nothing.
pub proof fn lemma_persist_idempotent(t: Table, r: DbUserView)
    ensures
        persist_effect(t, r) == t.insert(r.uuid, r),
        !(run(t, persist_choice(found(run(t, StatementView::SelectByUuid(r.uuid)).1), r)).1 is Conflict),
        persist_effect(persist_effect(t, r), r) == persist_effect(t, r),
{
    assert(t.insert(r.uuid, r).insert(r.uuid, r) =~= t.insert(r.uuid, r));
}

/// Two `persist` calls of a new record that both see it absent both insert;
/// the second insert meets the duplicate-key failure, which is reported and
/// leaves the first write in place.
pub proof fn lemma_persist_race_surfaces(t: Table, r1: DbUserView, r2: DbUserView)
    requires
        !t.contains_key(r1.uuid),
        r1.uuid == r2.uuid,
    ensures
        !found(run(t, StatementView::SelectByUuid(r1.uuid)).1),
        ({
            let after_first = run(t, persist_choice(false, r1)).0;
            let second = run(after_first, persist_choice(false, r2));
            &&& second.1 is Conflict
            &&& second.0 == after_first
            &&& after_first[r1.uuid] == r1
        }),
{
}

} // verus!
