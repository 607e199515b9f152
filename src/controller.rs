//! What the demonstration endpoints answer, and the statuses of their errors.
use vstd::prelude::*;

verus! {

/// The greeting of the index endpoint.
pub fn index() -> (r: &'static str)
    ensures
        r@ == "Hello, world!"@,
{
    "Hello, world!"
}

/// The success body of the `may_fail` endpoint.
#[derive(Clone, Copy, Debug, PartialEq, Eq, Structural)]
pub struct MayFailSuccess {
    pub a: i8,
    pub b: i16,
    pub c: i32,
}

/// The error body of the `may_fail` endpoint.
#[derive(Clone, Copy, Debug, PartialEq, Eq, Structural)]
pub enum MayFailError {
    /// This value occurs on error A.
    A,
    /// This value occurs on error B.
    B(i8),
    /// This value occurs on error C.
    C { val1: i16, val2: i32 },
}

impl MayFailError {
    /// The custom HTTP status of each error.
    pub fn status_code(&self) -> (r: u16)
        ensures
            r == match self {
                MayFailError::A => 700u16,
                MayFailError::B(_) => 701u16,
                MayFailError::C { .. } => 702u16,
            },
    {
        match self {
            MayFailError::A => 700,
            MayFailError::B(_) => 701,
            MayFailError::C { .. } => 702,
        }
    }
}

/// Some data, but it may fail: it always fails with error C.
pub fn may_fail() -> (r: Result<MayFailSuccess, MayFailError>)
    ensures
        r == Err::<MayFailSuccess, MayFailError>(MayFailError::C { val1: 1, val2: 2 }),
{
    Err(MayFailError::C { val1: 1, val2: 2 })
}

/// The body of the `may_not_find` endpoint when something is found.
#[derive(Clone, Debug, PartialEq, Eq)]
pub struct MayNotFindFound {
    pub message: String,
}

/// A cool struct, but it may not be found: it never is.
pub fn may_not_find() -> (r: Option<MayNotFindFound>)
    ensures
        r is None,
{
    None
}

/// How a struct looks.
#[derive(Clone, Copy, Debug, PartialEq, Eq, Structural)]
pub struct TestStruct {
    pub some_number: i8,
    pub another_number: i16,
    pub you_get_it: i32,
}

/// How an enum looks.
#[derive(Clone, Debug, PartialEq, Eq)]
pub enum TestEnum {
    /// When there is no data.
    NoData,
    /// When there is one integer.
    OneInteger(i32),
    /// When there is one long.
    OneLong(u64),
    /// When there is one boolean.
    OneBoolean(bool),
    /// When there are two strings.
    TwoStrings(String, String),
}

/// Always the same `TestStruct`.
pub fn test_struct() -> (r: TestStruct)
    ensures
        r == (TestStruct { some_number: 1, another_number: 2, you_get_it: 3 }),
{
    TestStruct { some_number: 1, another_number: 2, you_get_it: 3 }
}

/// Always the same `TestEnum`.
pub fn test_enum() -> (r: TestEnum)
    ensures
        r == TestEnum::OneInteger(1),
{
    TestEnum::OneInteger(1)
}

} // verus!
