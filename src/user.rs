//! The user entity in its two shapes: the domain `User` and the flat storage
//! record `DbUser`, with the total encoding from the first to the second and
//! the fallible decoding back.
use crate::clock::{now, representable, Timestamp};
use crate::identifier::{
    format_uuid, is_uuid_text, lemma_uuid_parse_text, parse_uuid, random_uuid, uuid_parse, uuid_text,
};
use crate::password::{password_hash_accepted, PasswordHash};
use vstd::prelude::*;

verus! {

/// The roles a user can have, from the most privileged down.
#[derive(Clone, Copy, Debug, PartialEq, Eq, Structural, PartialOrd, Ord, Hash)]
pub enum Role {
    /// The system role, which has the highest level of access.
    System,
    /// The admin role, below the system role and above the user role.
    Admin,
    /// The user role, which has the lowest level of access.
    User,
}

/// The storage code of a role.
pub open spec fn role_code(r: Role) -> i16 {
    match r {
        Role::System => 0,
        Role::Admin => 1,
        Role::User => 2,
    }
}

/// The role that a storage code stands for, if any.
pub open spec fn role_of_code(c: i16) -> Option<Role> {
    if c == 0 {
        Some(Role::System)
    } else if c == 1 {
        Some(Role::Admin)
    } else if c == 2 {
        Some(Role::User)
    } else {
        None
    }
}

impl Role {
    /// The storage code of the role.
    pub fn code(self) -> (c: i16)
        ensures
            c == role_code(self),
    {
        match self {
            Role::System => 0,
            Role::Admin => 1,
            Role::User => 2,
        }
    }

    /// The role with the given storage code; `None` for any other code.
    pub fn from_code(c: i16) -> (r: Option<Role>)
        ensures
            r == role_of_code(c),
    {
        if c == 0 {
            Some(Role::System)
        } else if c == 1 {
            Some(Role::Admin)
        } else if c == 2 {
            Some(Role::User)
        } else {
            None
        }
    }
}

impl Default for Role {
    fn default() -> (r: Role)
        ensures
            r == Role::User,
    {
        Role::User
    }
}

/// Reading a code back gives the role it was made from.
pub proof fn lemma_role_code_round_trip(r: Role)
    ensures
        role_of_code(role_code(r)) == Some(r),
{
}

/// The storage record of a user: every field a plain column value.
#[derive(Debug, PartialEq, Eq)]
pub struct DbUser {
    /// The identifier in hyphenated hex form.
    pub uuid: String,
    pub username: String,
    /// The role's storage code.
    pub role: i16,
    /// The password hash in its encoded form.
    pub password_hash: String,
    /// Creation time in whole seconds since the Unix epoch.
    pub created_at: i64,
}

/// A storage record with its texts as sequences of characters.
pub struct DbUserView {
    pub uuid: Seq<char>,
    pub username: Seq<char>,
    pub role: i16,
    pub password_hash: Seq<char>,
    pub created_at: i64,
}

impl View for DbUser {
    type V = DbUserView;

    open spec fn view(&self) -> DbUserView {
        DbUserView {
            uuid: self.uuid@,
            username: self.username@,
            role: self.role,
            password_hash: self.password_hash@,
            created_at: self.created_at,
        }
    }
}

impl Clone for DbUser {
    fn clone(&self) -> (r: DbUser)
        ensures
            r@ == self@,
    {
        DbUser {
            uuid: self.uuid.clone(),
            username: self.username.clone(),
            role: self.role,
            password_hash: self.password_hash.clone(),
            created_at: self.created_at,
        }
    }
}

/// A user of the domain.
#[derive(Clone, Debug, PartialEq, Eq)]
pub struct User {
    /// The identifier, fixed at creation.
    pub uuid: u128,
    pub username: String,
    pub role: Role,
    pub password_hash: PasswordHash,
    /// Creation time, fixed at creation.
    pub created_at: Timestamp,
}

/// A user with its texts as sequences of characters.
pub struct UserView {
    pub uuid: u128,
    pub username: Seq<char>,
    pub role: Role,
    pub password_hash: Seq<char>,
    pub created_at: Timestamp,
}

impl View for User {
    type V = UserView;

    open spec fn view(&self) -> UserView {
        UserView {
            uuid: self.uuid,
            username: self.username@,
            role: self.role,
            password_hash: self.password_hash@,
            created_at: self.created_at,
        }
    }
}

impl UserView {
    /// A valid user: its creation time lies in the representable range and its
    /// hash is one that orion accepts.
    pub open spec fn wf(self) -> bool {
        &&& self.created_at.wf()
        &&& password_hash_accepted(self.password_hash)
    }

    /// The same user with the sub-second part of its creation time dropped.
    pub open spec fn normalized(self) -> UserView {
        UserView { created_at: self.created_at.truncated(), ..self }
    }
}

impl User {
    /// A user with a fresh random identifier, created now.
    pub fn new(username: String, role: Role, password_hash: PasswordHash) -> (r: User)
        ensures
            r.username@ == username@,
            r.role == role,
            r.password_hash@ == password_hash@,
            r.wf(),
            r.created_at.secs >= 0,
            r.created_at.nanos < 1_000_000_000,
    {
        let uuid = random_uuid();
        let created_at = now();
        proof {
            use_type_invariant(&password_hash);
        }
        User { uuid, username, role, password_hash, created_at }
    }

    /// A valid user, as for its view.
    pub open spec fn wf(&self) -> bool {
        self@.wf()
    }
}

/// The four ways in which a storage record fails to decode.
#[derive(Clone, Copy, Debug, PartialEq, Eq, Structural)]
pub enum DecodeFailure {
    IdentifierFormat,
    RoleOutOfRange,
    PasswordHashFormat,
    TimestampOutOfRange,
}

/// Why a storage record could not be turned back into a user.
#[derive(Debug)]
pub enum UnadaptUserError {
    /// The identifier text is not a UUID.
    UuidParse(uuid::Error),
    /// The role code is none of the defined codes; holds the code.
    RoleParse(i16),
    /// The password hash text is not an encoded hash that orion accepts.
    PasswordHashParse(orion::errors::UnknownCryptoError),
    /// The creation time is out of range; holds the seconds.
    TimestampParse(i64),
}

impl UnadaptUserError {
    /// Which of the four failures this is.
    pub open spec fn spec_kind(&self) -> DecodeFailure {
        match self {
            UnadaptUserError::UuidParse(_) => DecodeFailure::IdentifierFormat,
            UnadaptUserError::RoleParse(_) => DecodeFailure::RoleOutOfRange,
            UnadaptUserError::PasswordHashParse(_) => DecodeFailure::PasswordHashFormat,
            UnadaptUserError::TimestampParse(_) => DecodeFailure::TimestampOutOfRange,
        }
    }

    /// Which of the four failures this is.
    pub fn kind(&self) -> (k: DecodeFailure)
        ensures
            k == self.spec_kind(),
    {
        match self {
            UnadaptUserError::UuidParse(_) => DecodeFailure::IdentifierFormat,
            UnadaptUserError::RoleParse(_) => DecodeFailure::RoleOutOfRange,
            UnadaptUserError::PasswordHashParse(_) => DecodeFailure::PasswordHashFormat,
            UnadaptUserError::TimestampParse(_) => DecodeFailure::TimestampOutOfRange,
        }
    }
}

/// The storage record of a user.
pub open spec fn encode(u: UserView) -> DbUserView {
    DbUserView {
        uuid: uuid_text(u.uuid),
        username: u.username,
        role: role_code(u.role),
        password_hash: u.password_hash,
        created_at: u.created_at.secs,
    }
}

/// What decoding a storage record gives. The fields are checked in a fixed
/// order, role, identifier, password hash, creation time, and the first that
/// fails decides the failure.
pub open spec fn decode(d: DbUserView) -> Result<UserView, DecodeFailure> {
    if role_of_code(d.role) is None {
        Err(DecodeFailure::RoleOutOfRange)
    } else if uuid_parse(d.uuid) is None {
        Err(DecodeFailure::IdentifierFormat)
    } else if !password_hash_accepted(d.password_hash) {
        Err(DecodeFailure::PasswordHashFormat)
    } else if !(crate::clock::timestamp_in_range(d.created_at as int)) {
        Err(DecodeFailure::TimestampOutOfRange)
    } else {
        Ok(
            UserView {
                uuid: uuid_parse(d.uuid)->Some_0,
                username: d.username,
                role: role_of_code(d.role)->Some_0,
                password_hash: d.password_hash,
                created_at: Timestamp { secs: d.created_at, nanos: 0 },
            },
        )
    }
}

/// The outcome of a decoding, with each error seen as its kind.
pub open spec fn decode_outcome(r: Result<User, UnadaptUserError>) -> Result<
    UserView,
    DecodeFailure,
> {
    match r {
        Ok(u) => Ok(u@),
        Err(e) => Err(e.spec_kind()),
    }
}

/// Decoding fails on an undefined role code whatever the other fields hold.
pub proof fn lemma_bad_role_decides(d: DbUserView)
    requires
        role_of_code(d.role) is None,
    ensures
        decode(d) == Err::<UserView, DecodeFailure>(DecodeFailure::RoleOutOfRange),
{
}

/// Decoding the record of a valid user gives the user back, with the
/// sub-second part of its creation time dropped.
pub proof fn lemma_round_trip(u: UserView)
    requires
        u.wf(),
    ensures
        decode(encode(u)) == Ok::<UserView, DecodeFailure>(u.normalized()),
{
    lemma_uuid_parse_text(u.uuid);
}

/// A decoded user is valid, and where the record holds its identifier in the
/// hyphenated lowercase form, encoding the user again gives that record.
pub proof fn lemma_decode_then_encode(d: DbUserView)
    requires
        decode(d) is Ok,
        is_uuid_text(d.uuid),
    ensures
        decode(d)->Ok_0.wf(),
        encode(decode(d)->Ok_0) == d,
{
    lemma_role_round_trip_code(d.role);
}

/// A code that names a role is that role's code.
pub proof fn lemma_role_round_trip_code(c: i16)
    requires
        role_of_code(c) is Some,
    ensures
        role_code(role_of_code(c)->Some_0) == c,
{
}

impl DbUser {
    /// The storage record of a user, taking the user.
    pub fn from_user(user: User) -> (r: DbUser)
        ensures
            r@ == encode(user@),
            user.wf() ==> decode(r@) == Ok::<UserView, DecodeFailure>(user@.normalized()),
    {
        let uuid = format_uuid(user.uuid);
        proof {
            lemma_uuid_parse_text(user.uuid);
        }
        let role = user.role.code();
        let password_hash = String::from_str(user.password_hash.unprotected_as_encoded());
        let created_at = user.created_at.secs;
        DbUser { uuid, username: user.username, role, password_hash, created_at }
    }

    /// The storage record of a user, leaving the user to the caller.
    pub fn from_user_ref(user: &User) -> (r: DbUser)
        ensures
            r@ == encode(user@),
            user.wf() ==> decode(r@) == Ok::<UserView, DecodeFailure>(user@.normalized()),
    {
        let uuid = format_uuid(user.uuid);
        proof {
            lemma_uuid_parse_text(user.uuid);
        }
        let role = user.role.code();
        let password_hash = String::from_str(user.password_hash.unprotected_as_encoded());
        let created_at = user.created_at.secs;
        DbUser { uuid, username: user.username.clone(), role, password_hash, created_at }
    }
}

impl User {
    /// Decodes a storage record, taking the record.
    pub fn try_from_db(db_user: DbUser) -> (r: Result<User, UnadaptUserError>)
        ensures
            decode_outcome(r) == decode(db_user@),
            r matches Err(UnadaptUserError::RoleParse(c)) ==> c == db_user.role,
            r matches Err(UnadaptUserError::TimestampParse(s)) ==> s == db_user.created_at,
    {
        let role = match Role::from_code(db_user.role) {
            Some(role) => role,
            None => {
                return Err(UnadaptUserError::RoleParse(db_user.role));
            },
        };
        let uuid = match parse_uuid(db_user.uuid.as_str()) {
            Ok(uuid) => {
                proof {
                    if is_uuid_text(db_user.uuid@) {
                        lemma_uuid_parse_text(uuid);
                    }
                }
                uuid
            },
            Err(e) => {
                return Err(UnadaptUserError::UuidParse(e));
            },
        };
        let password_hash = match PasswordHash::from_encoded(db_user.password_hash.as_str()) {
            Ok(h) => h,
            Err(e) => {
                return Err(UnadaptUserError::PasswordHashParse(e));
            },
        };
        if !representable(db_user.created_at) {
            return Err(UnadaptUserError::TimestampParse(db_user.created_at));
        }
        Ok(
            User {
                uuid,
                username: db_user.username,
                role,
                password_hash,
                created_at: Timestamp::from_secs(db_user.created_at),
            },
        )
    }

    /// Decodes a storage record, leaving the record to the caller.
    pub fn try_from_db_ref(db_user: &DbUser) -> (r: Result<User, UnadaptUserError>)
        ensures
            decode_outcome(r) == decode(db_user@),
            r matches Err(UnadaptUserError::RoleParse(c)) ==> c == db_user.role,
            r matches Err(UnadaptUserError::TimestampParse(s)) ==> s == db_user.created_at,
    {
        let role = match Role::from_code(db_user.role) {
            Some(role) => role,
            None => {
                return Err(UnadaptUserError::RoleParse(db_user.role));
            },
        };
        let uuid = match parse_uuid(db_user.uuid.as_str()) {
            Ok(uuid) => {
                proof {
                    if is_uuid_text(db_user.uuid@) {
                        lemma_uuid_parse_text(uuid);
                    }
                }
                uuid
            },
            Err(e) => {
                return Err(UnadaptUserError::UuidParse(e));
            },
        };
        let password_hash = match PasswordHash::from_encoded(db_user.password_hash.as_str()) {
            Ok(h) => h,
            Err(e) => {
                return Err(UnadaptUserError::PasswordHashParse(e));
            },
        };
        if !representable(db_user.created_at) {
            return Err(UnadaptUserError::TimestampParse(db_user.created_at));
        }
        Ok(
            User {
                uuid,
                username: db_user.username.clone(),
                role,
                password_hash,
                created_at: Timestamp::from_secs(db_user.created_at),
            },
        )
    }
}

} // verus!
