//! The domain services. Each operation that needs the database is split at
//! its round trips: the service names the statement to run, the caller runs
//! it, and the service decides from the answer what comes next.
use crate::clock::now;
use crate::config::{RasopusConfig, UserServiceConfig};
use crate::entity::{persist_choice, DbEntity, StatementView, UserStatement};
use crate::identifier::{format_uuid, random_uuid, uuid_text};
use crate::password::{hash_prefix, hashing_succeeds, PasswordHash};
use crate::text::starts_with;
use crate::user::{decode, encode, role_code, DbUser, DecodeFailure, Role, UnadaptUserError, User, UserView};
use vstd::prelude::*;

verus! {

/// Bytes in a mebibyte.
pub const BYTES_PER_MB: u32 = 1048576;

/// Why a user could not be generated.
#[derive(Debug)]
pub enum GenerateError {
    /// The given password was empty.
    EmptyPassword,
    /// Hashing the password failed.
    Cryptography(orion::errors::UnknownCryptoError),
}

/// Why an existence check failed.
#[derive(Debug)]
pub enum ExistsError {
    Database(sqlx::Error),
}

/// Why a user could not be created.
#[derive(Debug)]
pub enum CreateError {
    /// A user with the same identifier is already stored.
    AlreadyExists,
    Database(sqlx::Error),
}

/// Why a user could not be loaded.
#[derive(Debug)]
pub enum LoadError {
    Database(sqlx::Error),
    /// The stored record does not decode.
    Unadapt(UnadaptUserError),
}

/// Why a user could not be updated.
#[derive(Debug)]
pub enum UpdateError {
    /// No user with the identifier is stored.
    NotFound,
    Database(sqlx::Error),
}

/// Why a user could not be deleted.
#[derive(Debug)]
pub enum DeleteError {
    /// No user with the identifier is stored.
    NotFound,
    Database(sqlx::Error),
}

/// Why a user could not be persisted.
#[derive(Debug)]
pub enum PersistError {
    Database(sqlx::Error),
}

/// Creates, reads, changes and removes users.
#[derive(Debug)]
pub struct UserService {
    config: UserServiceConfig,
}

impl UserService {
    /// The hashing cost parameters of the service.
    pub closed spec fn spec_config(&self) -> UserServiceConfig {
        self.config
    }

    /// A service that hashes with the given cost parameters.
    pub fn new(config: UserServiceConfig) -> (r: UserService)
        ensures
            r.spec_config() == config,
    {
        UserService { config }
    }

    /// The hashing cost parameters of the service.
    pub fn config(&self) -> (r: UserServiceConfig)
        ensures
            r == self.spec_config(),
    {
        self.config
    }

    /// A new user with a fresh random identifier, created now, whose password
    /// is hashed with the configured number of passes and memory. An empty
    /// password is refused; costs that orion refuses give `Cryptography`. The
    /// configured memory, counted in bytes, must fit in a `u32`.
    pub fn generate(&self, username: String, password: &str, role: Role) -> (r: Result<
        User,
        GenerateError,
    >)
        requires
            self.spec_config().argon2_memory_mib as int * BYTES_PER_MB <= u32::MAX,
        ensures
            password@.len() == 0 <==> r matches Err(GenerateError::EmptyPassword),
            hashing_succeeds(
                password@,
                self.spec_config().argon2_iterations,
                (self.spec_config().argon2_memory_mib * 1024) as u32,
            ) ==> r is Ok,
            r is Ok ==> r->Ok_0.username@ == username@ && r->Ok_0.role == role && r->Ok_0.wf(),
            r is Ok ==> starts_with(
                r->Ok_0.password_hash@,
                hash_prefix(
                    (self.spec_config().argon2_memory_mib * 1024) as u32,
                    self.spec_config().argon2_iterations,
                ),
            ),
            r is Ok ==> r->Ok_0.created_at.secs >= 0 && r->Ok_0.created_at.nanos < 1_000_000_000,
    {
        if password.is_empty() {
            return Err(GenerateError::EmptyPassword);
        }
        let mb = self.config.argon2_memory_mib;
        // orion takes the memory in KiB
        let kib = mb * BYTES_PER_MB / 1024;
        assert(kib == mb * 1024) by (nonlinear_arith)
            requires
                mb * BYTES_PER_MB <= u32::MAX,
                kib == mb * BYTES_PER_MB / 1024,
                BYTES_PER_MB == 1048576,
        ;
        let iterations = self.config.argon2_iterations;
        let password_hash = match PasswordHash::hash(password, iterations, kib) {
            Ok(h) => h,
            Err(e) => {
                return Err(GenerateError::Cryptography(e));
            },
        };
        let uuid = random_uuid();
        let created_at = now();
        Ok(User { uuid, username, role, password_hash, created_at })
    }

    /// The select that finds some user with the role.
    pub fn exists_any_user_by_role(&self, role: Role) -> (r: UserStatement)
        ensures
            r@ == StatementView::SelectByRole(role_code(role)),
    {
        UserStatement::SelectByRole(role.code())
    }

    /// The select that tells whether a user with the identifier is stored;
    /// every check-first operation runs it before deciding.
    pub fn exists_query(&self, identifier: u128) -> (r: UserStatement)
        ensures
            r@ == StatementView::SelectByUuid(uuid_text(identifier)),
    {
        DbUser::exists_query(&format_uuid(identifier))
    }

    /// The answer of an existence check, with a failure of the database
    /// wrapped.
    pub fn exists_result(&self, found: Result<bool, sqlx::Error>) -> (r: Result<bool, ExistsError>)
        ensures
            found is Ok ==> r == Ok::<bool, ExistsError>(found->Ok_0),
            found is Err ==> r == Err::<bool, ExistsError>(ExistsError::Database(found->Err_0)),
    {
        match found {
            Ok(b) => Ok(b),
            Err(e) => Err(ExistsError::Database(e)),
        }
    }

    /// Given whether the user is stored: the insert of its record if it is
    /// not, else `AlreadyExists`.
    pub fn create(&self, user: &User, exists: Result<bool, sqlx::Error>) -> (r: Result<
        UserStatement,
        CreateError,
    >)
        ensures
            exists matches Ok(false) ==> r is Ok && r->Ok_0@ == StatementView::Insert(encode(user@)),
            exists matches Ok(true) ==> r matches Err(CreateError::AlreadyExists),
            exists is Err ==> (r matches Err(CreateError::Database(e)) && e == exists->Err_0),
    {
        match exists {
            Ok(true) => Err(CreateError::AlreadyExists),
            Ok(false) => Ok(DbUser::from_user_ref(user).create()),
            Err(e) => Err(CreateError::Database(e)),
        }
    }

    /// Given whether a user with the identifier is stored: the select that
    /// fetches it, or `None` where there is none.
    pub fn load(&self, identifier: u128, exists: Result<bool, sqlx::Error>) -> (r: Result<
        Option<UserStatement>,
        LoadError,
    >)
        ensures
            exists matches Ok(false) ==> r matches Ok(None),
            exists matches Ok(true) ==> (r matches Ok(Some(s)) && s@ == StatementView::SelectByUuid(
                uuid_text(identifier),
            )),
            exists is Err ==> (r matches Err(LoadError::Database(e)) && e == exists->Err_0),
    {
        match exists {
            Ok(true) => Ok(Some(DbUser::load(&format_uuid(identifier)))),
            Ok(false) => Ok(None),
            Err(e) => Err(LoadError::Database(e)),
        }
    }

    /// The user decoded from the fetched record.
    pub fn load_row(&self, row: Result<DbUser, sqlx::Error>) -> (r: Result<User, LoadError>)
        ensures
            row is Err ==> (r matches Err(LoadError::Database(e)) && e == row->Err_0),
            row is Ok ==> match r {
                Ok(u) => decode(row->Ok_0@) == Ok::<UserView, DecodeFailure>(u@),
                Err(LoadError::Unadapt(e)) => decode(row->Ok_0@) == Err::<UserView, DecodeFailure>(
                    e.spec_kind(),
                ),
                Err(LoadError::Database(_)) => false,
            },
    {
        match row {
            Ok(db_user) => match User::try_from_db(db_user) {
                Ok(u) => Ok(u),
                Err(e) => Err(LoadError::Unadapt(e)),
            },
            Err(e) => Err(LoadError::Database(e)),
        }
    }

    /// Given whether the user is stored: the update of its record, or
    /// `NotFound`.
    pub fn update(&self, user: &User, exists: Result<bool, sqlx::Error>) -> (r: Result<
        UserStatement,
        UpdateError,
    >)
        ensures
            exists matches Ok(true) ==> r is Ok && r->Ok_0@ == StatementView::Update(encode(user@)),
            exists matches Ok(false) ==> r matches Err(UpdateError::NotFound),
            exists is Err ==> (r matches Err(UpdateError::Database(e)) && e == exists->Err_0),
    {
        match exists {
            Ok(true) => Ok(DbUser::from_user_ref(user).update()),
            Ok(false) => Err(UpdateError::NotFound),
            Err(e) => Err(UpdateError::Database(e)),
        }
    }

    /// Given whether the user is stored: the delete of its row, or `NotFound`.
    pub fn delete(&self, user: &User, exists: Result<bool, sqlx::Error>) -> (r: Result<
        UserStatement,
        DeleteError,
    >)
        ensures
            exists matches Ok(true) ==> r is Ok && r->Ok_0@ == StatementView::Delete(uuid_text(user.uuid)),
            exists matches Ok(false) ==> r matches Err(DeleteError::NotFound),
            exists is Err ==> (r matches Err(DeleteError::Database(e)) && e == exists->Err_0),
    {
        match exists {
            Ok(true) => Ok(DbUser::delete(&format_uuid(user.uuid))),
            Ok(false) => Err(DeleteError::NotFound),
            Err(e) => Err(DeleteError::Database(e)),
        }
    }

    /// Given whether the user is stored: the update of its record if it is,
    /// else the insert.
    pub fn persist(&self, user: User, exists: Result<bool, sqlx::Error>) -> (r: Result<
        UserStatement,
        PersistError,
    >)
        ensures
            exists is Ok ==> r is Ok && r->Ok_0@ == persist_choice(exists->Ok_0, encode(user@)),
            exists is Err ==> (r matches Err(PersistError::Database(e)) && e == exists->Err_0),
    {
        let db_user = DbUser::from_user_ref(&user);
        match db_user.persist(exists) {
            Ok(s) => Ok(s),
            Err(e) => Err(PersistError::Database(e)),
        }
    }
}

/// Why the setup check failed.
#[derive(Debug)]
pub enum SetupCheckError {
    /// Checking for a system user failed.
    UserServiceExistsError(ExistsError),
}

/// Tells whether the backend still needs its first system user.
#[derive(Debug)]
pub struct SetupService;

impl SetupService {
    /// The setup service; it holds no state.
    pub fn new() -> (r: SetupService) {
        SetupService
    }

    /// The select that finds some system user.
    pub fn system_user_query(&self, user_service: &UserService) -> (r: UserStatement)
        ensures
            r@ == StatementView::SelectByRole(role_code(Role::System)),
    {
        user_service.exists_any_user_by_role(Role::System)
    }

    /// Setup is needed exactly while no system user exists.
    pub fn needs_setup(&self, system_user_exists: Result<bool, ExistsError>) -> (r: Result<
        bool,
        SetupCheckError,
    >)
        ensures
            system_user_exists is Ok ==> r == Ok::<bool, SetupCheckError>(!system_user_exists->Ok_0),
            system_user_exists is Err ==> r == Err::<bool, SetupCheckError>(
                SetupCheckError::UserServiceExistsError(system_user_exists->Err_0),
            ),
    {
        match system_user_exists {
            Ok(b) => Ok(!b),
            Err(e) => Err(SetupCheckError::UserServiceExistsError(e)),
        }
    }
}

/// The services that the web server shares between requests.
#[derive(Debug)]
pub struct ServiceCollection {
    pub setup: SetupService,
    pub user: UserService,
}

impl ServiceCollection {
    /// The services, with hashing costs from the start configuration.
    pub fn new(config: &RasopusConfig) -> (r: ServiceCollection)
        ensures
            r.user.spec_config() == UserServiceConfig::from_config_spec(config),
    {
        let user_service_config = UserServiceConfig::from_config(config);
        ServiceCollection { setup: SetupService::new(), user: UserService::new(user_service_config) }
    }
}

} // verus!
