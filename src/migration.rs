//! The migration drift detector: does the live schema lack a migration that
//! the application expects?
use vstd::prelude::*;
use vstd::string::*;

verus! {

/// `sqlx::migrate::MigrateError`, the failure of listing applied migrations,
/// carried through unchanged.
#[verifier::external_type_specification]
#[verifier::external_body]
pub struct ExMigrateError(sqlx::migrate::MigrateError);

/// The table in which sqlx records the migrations it has applied.
pub const BOOKKEEPING_TABLE: &'static str = "_sqlx_migrations";

/// A migration as the detector sees it: its version and content checksum.
#[derive(Clone, Debug, PartialEq, Eq)]
pub struct MigrationRecord {
    pub version: i64,
    pub checksum: Vec<u8>,
}

/// Why the detector could not answer.
#[derive(Debug)]
pub enum CheckMigrationError {
    /// Acquiring or closing the connection failed.
    Sqlx(sqlx::Error),
    /// Listing the applied migrations failed, for another reason than a
    /// missing bookkeeping table.
    SqlxMigrate(sqlx::migrate::MigrateError),
}

/// The checksums of a list of migrations.
pub open spec fn checksums(ms: Seq<MigrationRecord>) -> Set<Seq<u8>> {
    Set::new(|c: Seq<u8>| exists|i: int| 0 <= i < ms.len() && #[trigger] ms[i].checksum@ == c)
}

/// Drift: some expected checksum is not among the applied ones.
pub open spec fn drift(expected: Seq<MigrationRecord>, applied: Seq<MigrationRecord>) -> bool {
    !checksums(expected).subset_of(checksums(applied))
}

/// Whether `needle` occurs in `hay` at position `i`.
pub open spec fn occurs_at(hay: Seq<char>, needle: Seq<char>, i: int) -> bool {
    0 <= i && i + needle.len() <= hay.len() && hay.subrange(i, i + needle.len()) == needle
}

/// Whether `needle` occurs anywhere in `hay`.
pub open spec fn contains_text(hay: Seq<char>, needle: Seq<char>) -> bool {
    exists|i: int| occurs_at(hay, needle, i)
}

fn bytes_equal(a: &Vec<u8>, b: &Vec<u8>) -> (r: bool)
    ensures
        r == (a@ == b@),
{
    if a.len() != b.len() {
        return false;
    }
    let mut i: usize = 0;
    while i < a.len()
        invariant
            a@.len() == b@.len(),
            i <= a@.len(),
            forall|j: int| 0 <= j < i ==> a@[j] == b@[j],
        decreases a@.len() - i,
    {
        if a[i] != b[i] {
            return false;
        }
        i = i + 1;
    }
    assert(a@ =~= b@);
    true
}

fn has_checksum(ms: &Vec<MigrationRecord>, c: &Vec<u8>) -> (r: bool)
    ensures
        r == checksums(ms@).contains(c@),
{
    let mut i: usize = 0;
    while i < ms.len()
        invariant
            i <= ms@.len(),
            forall|j: int| 0 <= j < i ==> ms@[j].checksum@ != c@,
        decreases ms@.len() - i,
    {
        if bytes_equal(&ms[i].checksum, c) {
            assert(checksums(ms@).contains(c@));
            return true;
        }
        i = i + 1;
    }
    false
}

/// Whether some expected migration has not been applied. Applied migrations
/// that are not expected do not count as drift.
pub fn has_drift(expected: &Vec<MigrationRecord>, applied: &Vec<MigrationRecord>) -> (r: bool)
    ensures
        r == drift(expected@, applied@),
{
    let mut i: usize = 0;
    while i < expected.len()
        invariant
            i <= expected@.len(),
            forall|j: int| 0 <= j < i ==> checksums(applied@).contains(#[trigger] expected@[j].checksum@),
        decreases expected@.len() - i,
    {
        if !has_checksum(applied, &expected[i].checksum) {
            assert(checksums(expected@).contains(expected@[i as int].checksum@));
            return true;
        }
        i = i + 1;
    }
    assert(checksums(expected@).subset_of(checksums(applied@)));
    false
}

/// Whether `needle` occurs in `hay`.
pub fn contains(hay: &str, needle: &str) -> (r: bool)
    ensures
        r == contains_text(hay@, needle@),
{
    let n = hay.unicode_len();
    let m = needle.unicode_len();
    if m > n {
        assert forall|i: int| !occurs_at(hay@, needle@, i) by {}
        return false;
    }
    let mut i: usize = 0;
    while i <= n - m
        invariant
            n == hay@.len(),
            m == needle@.len(),
            m <= n,
            i <= n - m + 1,
            forall|k: int| 0 <= k < i ==> !occurs_at(hay@, needle@, k),
        decreases n - m + 1 - i,
    {
        let mut j: usize = 0;
        let mut same = true;
        while j < m
            invariant
                n == hay@.len(),
                m == needle@.len(),
                i + m <= n,
                j <= m,
                same == (forall|l: int| 0 <= l < j ==> hay@[i + l] == needle@[l]),
            decreases m - j,
        {
            if hay.get_char(i + j) != needle.get_char(j) {
                same = false;
            }
            j = j + 1;
        }
        if same {
            assert(hay@.subrange(i as int, i + m) =~= needle@);
            assert(occurs_at(hay@, needle@, i as int));
            return true;
        }
        assert(!occurs_at(hay@, needle@, i as int)) by {
            if occurs_at(hay@, needle@, i as int) {
                assert forall|l: int| 0 <= l < m implies hay@[i + l] == needle@[l] by {
                    assert(hay@.subrange(i as int, i + m)[l] == hay@[i + l]);
                }
            }
        }
        i = i + 1;
    }
    assert forall|k: int| !occurs_at(hay@, needle@, k) by {
        if 0 <= k < i {
        }
    }
    false
}

/// Whether a database error message says that the bookkeeping table is
/// missing, which means that no migration has ever been applied.
pub fn is_missing_bookkeeping(message: &str) -> (r: bool)
    ensures
        r == contains_text(message@, BOOKKEEPING_TABLE@),
{
    contains(message, BOOKKEEPING_TABLE)
}

/// Relies on `sqlx::migrate::MigrateError` and `DatabaseError::message`: the
/// message of a database error met while running a statement, and `None` for
/// every other failure.
#[verifier::external_body]
fn database_message(e: &sqlx::migrate::MigrateError) -> (r: Option<String>) {
    match e {
        sqlx::migrate::MigrateError::Execute(sqlx::Error::Database(d)) => Some(d.message().to_string()),
        _ => None,
    }
}

/// A failed listing of the applied migrations: the error, and the database's
/// own message where the database reported one.
#[derive(Debug)]
pub struct ListingFailure {
    pub database_message: Option<String>,
    pub error: sqlx::migrate::MigrateError,
}

impl ListingFailure {
    /// The failure of a listing, with the database's message read out of it.
    pub fn from_error(error: sqlx::migrate::MigrateError) -> (r: ListingFailure)
        ensures
            r.error == error,
    {
        ListingFailure { database_message: database_message(&error), error }
    }

    /// Whether the failure says that the bookkeeping table is absent.
    pub open spec fn bookkeeping_missing(&self) -> bool {
        self.database_message matches Some(m) && contains_text(m@, BOOKKEEPING_TABLE@)
    }
}

/// Decides drift from the expected migrations and the result of listing the
/// applied ones. A listing that failed because the bookkeeping table is
/// absent means drift; any other failure is passed on unchanged.
pub fn needs_migration(
    expected: &Vec<MigrationRecord>,
    listed: Result<Vec<MigrationRecord>, ListingFailure>,
) -> (r: Result<bool, CheckMigrationError>)
    ensures
        listed is Ok ==> r == Ok::<bool, CheckMigrationError>(drift(expected@, listed->Ok_0@)),
        listed is Err && listed->Err_0.bookkeeping_missing() ==> r == Ok::<
            bool,
            CheckMigrationError,
        >(true),
        listed is Err && !listed->Err_0.bookkeeping_missing() ==> r == Err::<
            bool,
            CheckMigrationError,
        >(CheckMigrationError::SqlxMigrate(listed->Err_0.error)),
{
    match listed {
        Ok(applied) => Ok(has_drift(expected, &applied)),
        Err(failure) => {
            let missing = match &failure.database_message {
                Some(message) => is_missing_bookkeeping(message.as_str()),
                None => false,
            };
            if missing {
                Ok(true)
            } else {
                Err(CheckMigrationError::SqlxMigrate(failure.error))
            }
        },
    }
}

} // verus!
