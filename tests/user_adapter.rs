use rasopus::adapter::{DbEntityAdapter, DbEntityReference};
use rasopus::clock::{Timestamp, MAX_TIMESTAMP, MIN_TIMESTAMP};
use rasopus::password::PasswordHash;
use rasopus::user::{DbUser, DecodeFailure, Role, UnadaptUserError, User};

const SAMPLE_UUID: u128 = 0x936da01f_9abd_4d9d_80c7_02af85c822a8;
const SAMPLE_TEXT: &str = "936da01f-9abd-4d9d-80c7-02af85c822a8";

fn sample_hash() -> PasswordHash {
    PasswordHash::hash("correct horse", 3, 8).expect("hashing with minimal cost works")
}

fn sample_user(nanos: u32) -> User {
    User {
        uuid: SAMPLE_UUID,
        username: "alice".to_string(),
        role: Role::Admin,
        password_hash: sample_hash(),
        created_at: Timestamp { secs: 1_700_000_000, nanos },
    }
}

fn sample_record() -> DbUser {
    DbUser::from_user(sample_user(0))
}

#[test]
fn role_codes_are_fixed() {
    assert_eq!(Role::System.code(), 0);
    assert_eq!(Role::Admin.code(), 1);
    assert_eq!(Role::User.code(), 2);
    assert_eq!(Role::from_code(0), Some(Role::System));
    assert_eq!(Role::from_code(1), Some(Role::Admin));
    assert_eq!(Role::from_code(2), Some(Role::User));
    assert_eq!(Role::from_code(3), None);
    assert_eq!(Role::from_code(-1), None);
    assert_eq!(Role::default(), Role::User);
    assert!(Role::System < Role::Admin && Role::Admin < Role::User);
}

#[test]
fn encode_flattens_each_field() {
    let user = sample_user(123_456_789);
    let encoded = user.password_hash.unprotected_as_encoded().to_string();
    let record = DbUser::from_user_ref(&user);
    assert_eq!(record.uuid, SAMPLE_TEXT);
    assert_eq!(record.username, "alice");
    assert_eq!(record.role, 1);
    assert_eq!(record.password_hash, encoded);
    assert_eq!(record.created_at, 1_700_000_000);
    assert!(record.password_hash.starts_with("$argon2i$v=19$m=8,t=3,p=1$"));
}

#[test]
fn round_trip_restores_the_user_without_sub_seconds() {
    let user = sample_user(987_654_321);
    let back = User::try_from_db(DbUser::from_user_ref(&user)).expect("a valid user decodes");
    assert_eq!(back.uuid, user.uuid);
    assert_eq!(back.username, user.username);
    assert_eq!(back.role, user.role);
    assert_eq!(back.password_hash, user.password_hash);
    assert_eq!(back.created_at, Timestamp { secs: 1_700_000_000, nanos: 0 });
    let again = User::try_from_db_ref(&DbUser::from_user(back)).expect("decodes again");
    assert_eq!(again.created_at, Timestamp { secs: 1_700_000_000, nanos: 0 });
    assert_eq!(again.uuid, SAMPLE_UUID);
}

#[test]
fn decode_reads_uppercase_and_simple_identifiers() {
    let mut record = sample_record();
    record.uuid = "936DA01F9ABD4D9D80C702AF85C822A8".to_string();
    let user = User::try_from_db(record).expect("the simple form is a UUID");
    assert_eq!(user.uuid, SAMPLE_UUID);
}

#[test]
fn bad_role_decides_whatever_else_is_wrong() {
    let record = DbUser {
        uuid: "not a uuid".to_string(),
        username: String::new(),
        role: 99,
        password_hash: "plaintext".to_string(),
        created_at: i64::MAX,
    };
    match User::try_from_db_ref(&record) {
        Err(UnadaptUserError::RoleParse(code)) => assert_eq!(code, 99),
        other => panic!("expected a role failure, got {:?}", other.map(|u| u.uuid)),
    }
    let mut valid = sample_record();
    valid.role = 99;
    let err = User::try_from_db(valid).err().expect("role 99 fails");
    assert_eq!(err.kind(), DecodeFailure::RoleOutOfRange);
}

#[test]
fn bad_identifier_is_an_identifier_failure() {
    let mut record = sample_record();
    record.uuid = "936da01f-9abd-4d9d-80c7".to_string();
    let err = User::try_from_db(record).err().expect("a short identifier fails");
    assert_eq!(err.kind(), DecodeFailure::IdentifierFormat);
    assert!(matches!(err, UnadaptUserError::UuidParse(_)));
}

#[test]
fn bad_hash_is_a_hash_failure() {
    let mut record = sample_record();
    record.password_hash = "$argon2id$v=19$m=8,t=3,p=1$abc$def".to_string();
    let err = User::try_from_db(record).err().expect("a foreign hash fails");
    assert_eq!(err.kind(), DecodeFailure::PasswordHashFormat);
    assert!(PasswordHash::from_encoded("secret").is_err());
}

#[test]
fn timestamp_range_matches_chrono() {
    for secs in [MIN_TIMESTAMP, 0, -1, MAX_TIMESTAMP] {
        let mut record = sample_record();
        record.created_at = secs;
        let user = User::try_from_db(record).expect("in range");
        assert_eq!(user.created_at, Timestamp { secs, nanos: 0 });
    }
    for secs in [MIN_TIMESTAMP - 1, MAX_TIMESTAMP + 1, i64::MIN, i64::MAX] {
        let mut record = sample_record();
        record.created_at = secs;
        match User::try_from_db(record) {
            Err(UnadaptUserError::TimestampParse(s)) => assert_eq!(s, secs),
            _ => panic!("{} should be out of range", secs),
        }
    }
}

#[test]
fn password_hash_keeps_its_text() {
    let hash = sample_hash();
    let text = hash.unprotected_as_encoded().to_string();
    let read = PasswordHash::from_encoded(&text).expect("orion reads its own output");
    assert_eq!(read.unprotected_as_encoded(), text);
    assert_eq!(read.clone(), hash);
    assert!(PasswordHash::hash("pw", 2, 8).is_err());
    assert!(PasswordHash::hash("pw", 3, 7).is_err());
    assert!(PasswordHash::hash("", 3, 8).is_err());
    let h = PasswordHash::hash("pw", 5, 16).expect("lowest accepted memory is 8 KiB");
    assert!(h.unprotected_as_encoded().starts_with("$argon2i$v=19$m=16,t=5,p=1$"));
}

#[test]
fn timestamp_from_secs_has_no_sub_seconds() {
    assert_eq!(Timestamp::from_secs(42), Timestamp { secs: 42, nanos: 0 });
}

#[test]
fn adapter_traits_convert_both_ways() {
    let user = sample_user(5);
    let record = user.adapt_ref();
    assert_eq!(record.uuid, SAMPLE_TEXT);
    assert_eq!(record.role, 1);
    let back = User::unadapt_ref(&record).expect("decodes");
    assert_eq!(back.created_at, Timestamp { secs: 1_700_000_000, nanos: 0 });
    let again = User::unadapt(back.adapt()).expect("decodes again");
    assert_eq!(again.uuid, SAMPLE_UUID);
    assert_eq!(again.username, "alice");
    let mut bad = user.adapt_ref();
    bad.role = -4;
    assert!(matches!(User::unadapt(bad), Err(UnadaptUserError::RoleParse(-4))));
}

#[test]
fn new_user_gets_fresh_identity() {
    let a = User::new("carol".to_string(), Role::User, sample_hash());
    let b = User::new("carol".to_string(), Role::User, sample_hash());
    assert_eq!(a.username, "carol");
    assert_eq!(a.role, Role::User);
    assert_ne!(a.uuid, b.uuid);
    assert!(a.created_at.secs > 1_600_000_000);
    let back = User::try_from_db(DbUser::from_user_ref(&a)).expect("a new user decodes");
    assert_eq!(back.uuid, a.uuid);
}
