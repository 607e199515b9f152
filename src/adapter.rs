//! The adapter pair between a domain entity and its storage record, in an
//! owned and in a borrowed form. Encoding is total; decoding may fail.
use crate::user::{decode, decode_outcome, encode, DbUser, UnadaptUserError, User};
use vstd::prelude::*;

verus! {

/// A domain type that turns into its storage record and back, consuming the
/// value it converts.
pub trait DbEntityAdapter<T>: Sized {
    type Error;

    /// The storage record of the value.
    fn adapt(self) -> T;

    /// The value that a storage record stands for, if it stands for one.
    fn unadapt(record: T) -> Result<Self, Self::Error>;
}

/// A domain type that turns into its storage record and back, leaving the
/// value it converts to the caller.
pub trait DbEntityReference<T>: Sized {
    type Error;

    /// The storage record of the value.
    fn adapt_ref(&self) -> T;

    /// The value that a storage record stands for, if it stands for one.
    fn unadapt_ref(record: &T) -> Result<Self, Self::Error>;
}

impl DbEntityAdapter<DbUser> for User {
    type Error = UnadaptUserError;

    fn adapt(self) -> (r: DbUser)
        ensures
            r@ == encode(self@),
    {
        DbUser::from_user(self)
    }

    fn unadapt(record: DbUser) -> (r: Result<User, UnadaptUserError>)
        ensures
            decode_outcome(r) == decode(record@),
    {
        User::try_from_db(record)
    }
}

impl DbEntityReference<DbUser> for User {
    type Error = UnadaptUserError;

    fn adapt_ref(&self) -> (r: DbUser)
        ensures
            r@ == encode(self@),
    {
        DbUser::from_user_ref(self)
    }

    fn unadapt_ref(record: &DbUser) -> (r: Result<User, UnadaptUserError>)
        ensures
            decode_outcome(r) == decode(record@),
    {
        User::try_from_db_ref(record)
    }
}

} // verus!
