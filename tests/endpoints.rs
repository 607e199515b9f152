use rasopus::controller::{
    index, may_fail, may_not_find, test_enum, test_struct, MayFailError, MayFailSuccess, TestEnum, TestStruct,
};
use rasopus::payload::{
    setup_get, setup_post_check, SetupGetErrorResponse, SetupGetResponse, SetupPostErrorResponse,
};
use rasopus::service::{CreateError, ExistsError, GenerateError, SetupCheckError};

fn check_failure() -> SetupCheckError {
    SetupCheckError::UserServiceExistsError(ExistsError::Database(sqlx::Error::PoolTimedOut))
}

#[test]
fn error_messages_name_the_failure() {
    assert_eq!(
        check_failure().message(),
        "The user service returned an error while checking if a system user exists: Database error: pool timed out while waiting for an open connection"
    );
    assert_eq!(GenerateError::EmptyPassword.message(), "The given password was empty");
    assert_eq!(CreateError::AlreadyExists.message(), "User already exists");
    assert_eq!(
        CreateError::Database(sqlx::Error::RowNotFound).message(),
        "Database error: no rows returned by a query that expected to return at least one row"
    );
}

#[test]
fn setup_get_answers() {
    assert_eq!(setup_get(Ok(true)).unwrap(), SetupGetResponse { needs_setup: true });
    assert_eq!(setup_get(Ok(false)).unwrap(), SetupGetResponse { needs_setup: false });
    let err = setup_get(Err(check_failure())).unwrap_err();
    assert_eq!(err.status_code(), 500);
    let SetupGetErrorResponse::SetupServiceCheck(m) = err;
    assert_eq!(
        m,
        "The setup service returned an error while checking whether the backend needs to be set up: The user service returned an error while checking if a system user exists: Database error: pool timed out while waiting for an open connection"
    );
}

#[test]
fn setup_post_goes_on_only_while_needed() {
    assert!(setup_post_check(Ok(true)).is_ok());
    let already = setup_post_check(Ok(false)).unwrap_err();
    assert_eq!(already, SetupPostErrorResponse::AlreadySetup);
    assert_eq!(already.status_code(), 409);
    let failed = setup_post_check(Err(check_failure())).unwrap_err();
    assert!(matches!(&failed, SetupPostErrorResponse::SetupServiceCheck(m)
        if m.starts_with("The setup service returned an error while checking if the backend needs to be set up: ")));
    assert_eq!(failed.status_code(), 500);
    let generate = SetupPostErrorResponse::from_generate_error(&GenerateError::EmptyPassword);
    assert_eq!(
        generate,
        SetupPostErrorResponse::UserServiceGenerate(
            "The user service returned an error while generating the system user: The given password was empty".to_string()
        )
    );
    assert_eq!(generate.status_code(), 500);
    let create = SetupPostErrorResponse::from_create_error(&CreateError::AlreadyExists);
    assert_eq!(
        create,
        SetupPostErrorResponse::UserServiceCreate(
            "The user service returned an error while creating the system user inside the database: User already exists".to_string()
        )
    );
    assert_eq!(create.status_code(), 500);
}

#[test]
fn demonstration_endpoints() {
    assert_eq!(index(), "Hello, world!");
    assert_eq!(may_fail(), Err::<MayFailSuccess, _>(MayFailError::C { val1: 1, val2: 2 }));
    assert_eq!(MayFailError::A.status_code(), 700);
    assert_eq!(MayFailError::B(3).status_code(), 701);
    assert_eq!(MayFailError::C { val1: 1, val2: 2 }.status_code(), 702);
    assert!(may_not_find().is_none());
    assert_eq!(test_struct(), TestStruct { some_number: 1, another_number: 2, you_get_it: 3 });
    assert_eq!(test_enum(), TestEnum::OneInteger(1));
}
