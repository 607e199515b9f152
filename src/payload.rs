//! The bodies that the setup endpoints exchange, the error bodies built from
//! the services' errors, and the HTTP status of each error.
use crate::service::{CreateError, ExistsError, GenerateError, SetupCheckError};
use crate::text::starts_with;
use vstd::prelude::*;
use vstd::string::*;

verus! {

proof fn lemma_concat_prefix(p: Seq<char>, t: Seq<char>)
    ensures
        starts_with(p + t, p),
{
    assert((p + t).subrange(0, p.len() as int) =~= p);
}

fn prefixed(p: &str, t: &str) -> (r: String)
    ensures
        r@ == p@ + t@,
        starts_with(r@, p@),
{
    proof {
        lemma_concat_prefix(p@, t@);
    }
    String::from_str(p).concat(t)
}

impl ExistsError {
    /// `Database error: ` and the database's own message.
    pub fn message(&self) -> (r: String)
        ensures
            starts_with(r@, "Database error: "@),
    {
        match self {
            ExistsError::Database(e) => prefixed("Database error: ", e.to_string().as_str()),
        }
    }
}

impl SetupCheckError {
    /// The failed check, and why it failed.
    pub fn message(&self) -> (r: String)
        ensures
            starts_with(
                r@,
                "The user service returned an error while checking if a system user exists: "@,
            ),
    {
        match self {
            SetupCheckError::UserServiceExistsError(e) => prefixed(
                "The user service returned an error while checking if a system user exists: ",
                e.message().as_str(),
            ),
        }
    }
}

impl GenerateError {
    /// What went wrong while generating a user.
    pub fn message(&self) -> (r: String)
        ensures
            self is EmptyPassword ==> r@ == "The given password was empty"@,
            self is Cryptography ==> starts_with(r@, "Cryptography error: "@),
    {
        match self {
            GenerateError::EmptyPassword => String::from_str("The given password was empty"),
            GenerateError::Cryptography(e) => prefixed("Cryptography error: ", e.to_string().as_str()),
        }
    }
}

impl CreateError {
    /// What went wrong while creating a user.
    pub fn message(&self) -> (r: String)
        ensures
            self is AlreadyExists ==> r@ == "User already exists"@,
            self is Database ==> starts_with(r@, "Database error: "@),
    {
        match self {
            CreateError::AlreadyExists => String::from_str("User already exists"),
            CreateError::Database(e) => prefixed("Database error: ", e.to_string().as_str()),
        }
    }
}

/// The backend's setup status.
#[derive(Clone, Copy, Debug, PartialEq, Eq, Structural)]
pub struct SetupGetResponse {
    /// Whether the backend needs to be set up.
    pub needs_setup: bool,
}

/// Why the setup status could not be retrieved.
#[derive(Clone, Debug, PartialEq, Eq)]
pub enum SetupGetErrorResponse {
    /// The setup check failed; holds the failure's message.
    SetupServiceCheck(String),
}

/// The request to set up the backend.
#[derive(Clone, Debug, PartialEq, Eq)]
pub struct SetupPostPayload {
    /// The username of the initial system user.
    pub username: String,
    /// The password of the initial system user.
    pub password: String,
}

/// The backend has been set up.
#[derive(Clone, Copy, Debug, PartialEq, Eq, Structural)]
pub struct SetupPostResponse {}

/// Why the backend could not be set up.
#[derive(Clone, Debug, PartialEq, Eq)]
pub enum SetupPostErrorResponse {
    /// The setup check failed.
    SetupServiceCheck(String),
    /// The backend is already set up.
    AlreadySetup,
    /// Generating the system user failed.
    UserServiceGenerate(String),
    /// Storing the system user failed.
    UserServiceCreate(String),
}

/// The status of an internal server error.
pub const INTERNAL_SERVER_ERROR: u16 = 500;

/// The status of a conflict.
pub const CONFLICT: u16 = 409;

impl SetupGetErrorResponse {
    /// The error body for a failed setup check.
    pub fn from_check_error(e: &SetupCheckError) -> (r: SetupGetErrorResponse)
        ensures
            r matches SetupGetErrorResponse::SetupServiceCheck(m) && starts_with(
                m@,
                "The setup service returned an error while checking whether the backend needs to be set up: "@,
            ),
    {
        SetupGetErrorResponse::SetupServiceCheck(
            prefixed(
                "The setup service returned an error while checking whether the backend needs to be set up: ",
                e.message().as_str(),
            ),
        )
    }

    /// The HTTP status of the error.
    pub fn status_code(&self) -> (r: u16)
        ensures
            r == INTERNAL_SERVER_ERROR,
    {
        match self {
            SetupGetErrorResponse::SetupServiceCheck(_) => INTERNAL_SERVER_ERROR,
        }
    }
}

impl SetupPostErrorResponse {
    /// The error body for a failed setup check.
    pub fn from_check_error(e: &SetupCheckError) -> (r: SetupPostErrorResponse)
        ensures
            r matches SetupPostErrorResponse::SetupServiceCheck(m) && starts_with(
                m@,
                "The setup service returned an error while checking if the backend needs to be set up: "@,
            ),
    {
        SetupPostErrorResponse::SetupServiceCheck(
            prefixed(
                "The setup service returned an error while checking if the backend needs to be set up: ",
                e.message().as_str(),
            ),
        )
    }

    /// The error body for a failed generation of the system user.
    pub fn from_generate_error(e: &GenerateError) -> (r: SetupPostErrorResponse)
        ensures
            r matches SetupPostErrorResponse::UserServiceGenerate(m) && starts_with(
                m@,
                "The user service returned an error while generating the system user: "@,
            ),
    {
        SetupPostErrorResponse::UserServiceGenerate(
            prefixed(
                "The user service returned an error while generating the system user: ",
                e.message().as_str(),
            ),
        )
    }

    /// The error body for a failed creation of the system user.
    pub fn from_create_error(e: &CreateError) -> (r: SetupPostErrorResponse)
        ensures
            r matches SetupPostErrorResponse::UserServiceCreate(m) && starts_with(
                m@,
                "The user service returned an error while creating the system user inside the database: "@,
            ),
    {
        SetupPostErrorResponse::UserServiceCreate(
            prefixed(
                "The user service returned an error while creating the system user inside the database: ",
                e.message().as_str(),
            ),
        )
    }

    /// The HTTP status of the error: a conflict when already set up, else an
    /// internal server error.
    pub fn status_code(&self) -> (r: u16)
        ensures
            r == if self is AlreadySetup {
                CONFLICT
            } else {
                INTERNAL_SERVER_ERROR
            },
    {
        match self {
            SetupPostErrorResponse::SetupServiceCheck(_) => INTERNAL_SERVER_ERROR,
            SetupPostErrorResponse::AlreadySetup => CONFLICT,
            SetupPostErrorResponse::UserServiceGenerate(_) => INTERNAL_SERVER_ERROR,
            SetupPostErrorResponse::UserServiceCreate(_) => INTERNAL_SERVER_ERROR,
        }
    }
}

/// The answer of the setup status endpoint, from the setup check.
pub fn setup_get(needs_setup: Result<bool, SetupCheckError>) -> (r: Result<
    SetupGetResponse,
    SetupGetErrorResponse,
>)
    ensures
        needs_setup is Ok <==> r is Ok,
        needs_setup is Ok ==> r->Ok_0 == (SetupGetResponse { needs_setup: needs_setup->Ok_0 }),
{
    match needs_setup {
        Ok(b) => Ok(SetupGetResponse { needs_setup: b }),
        Err(e) => Err(SetupGetErrorResponse::from_check_error(&e)),
    }
}

/// The first decision of the setup endpoint: go on only while setup is
/// needed.
pub fn setup_post_check(needs_setup: Result<bool, SetupCheckError>) -> (r: Result<
    (),
    SetupPostErrorResponse,
>)
    ensures
        needs_setup matches Ok(true) <==> r is Ok,
        needs_setup matches Ok(false) ==> r == Err::<(), SetupPostErrorResponse>(
            SetupPostErrorResponse::AlreadySetup,
        ),
        needs_setup is Err ==> r matches Err(SetupPostErrorResponse::SetupServiceCheck(_)),
{
    match needs_setup {
        Ok(true) => Ok(()),
        Ok(false) => Err(SetupPostErrorResponse::AlreadySetup),
        Err(e) => Err(SetupPostErrorResponse::from_check_error(&e)),
    }
}

} // verus!
