use identity::config::Config;
use identity::credentials::{PasswordCheck, hash_password, verify_password};
use identity::model::{SigninRequest, StartRegistrationRequest, VerifyUserRequest};
use identity::otp::generateOtp;
use identity::store::MemoryUsersRepository;
use identity::store::UsersRepository;
use identity::token::{TOKEN_LIFETIME_SECS, TokenFault, createJwt, decodeJwt};
use identity::usecases::{StatusKind, UsecaseError, Usecases};

const T0: i64 = 1_700_000_000;
const SECRET: &str = "test-secret";

fn config() -> Config {
    Config {
        jwt_secret: SECRET.to_string(),
        grpc_server_port: "4000".to_string(),
        metrics_server_port: "4001".to_string(),
        jaeger_collector_url: "http://localhost:4317".to_string(),
        surrealdb_url: "localhost:8000".to_string(),
        surrealdb_password: "password".to_string(),
    }
}

fn signin(identifier: &str, password: &str) -> SigninRequest {
    SigninRequest { identifier: identifier.to_string(), password: password.to_string() }
}

/// A service holding one verified user: Ann, a@x.com, ann, password p1.
fn verified_service() -> Usecases<MemoryUsersRepository> {
    let mut uc = Usecases::new(MemoryUsersRepository::new(), &config());
    let args = StartRegistrationRequest {
        name: "Ann".to_string(),
        email: "a@x.com".to_string(),
        username: "ann".to_string(),
        password: "p1".to_string(),
    };
    assert!(uc.startRegistration(&args, T0).is_ok());
    let code = uc.repository().record(0).verification_code.clone();
    let verify = VerifyUserRequest { email: "a@x.com".to_string(), verification_code: code };
    assert!(uc.verifyUser(&verify, T0 + 30).is_ok());
    uc
}

#[test]
fn signin_then_verify_session() {
    let uc = verified_service();
    let token = uc.signin(&signin("ann", "p1"), T0 + 60).ok().unwrap().jwt;
    assert!(uc.verifyJwt(&token, T0 + 120).is_ok());
}

#[test]
fn signin_token_names_stored_user() {
    let uc = verified_service();
    let token = uc.signin(&signin("ann", "p1"), T0 + 60).ok().unwrap().jwt;
    assert_eq!(decodeJwt(SECRET, &token, T0 + 61), Ok("users:0".to_string()));
}

#[test]
fn signin_by_email_address() {
    let uc = verified_service();
    let token = uc.signin(&signin("a@x.com", "p1"), T0 + 60).ok().unwrap().jwt;
    assert_eq!(decodeJwt(SECRET, &token, T0 + 61), Ok("users:0".to_string()));
}

#[test]
fn signin_with_wrong_password_is_refused() {
    let uc = verified_service();
    let e = uc.signin(&signin("ann", "wrong"), T0 + 60).err().unwrap();
    assert!(matches!(e, UsecaseError::WrongPassword));
    assert_eq!(e.message(), "wrong password provided");
}

#[test]
fn signin_of_unknown_user_is_not_found() {
    let uc = verified_service();
    let e = uc.signin(&signin("bob", "p1"), T0 + 60).err().unwrap();
    assert!(matches!(e, UsecaseError::UserNotFound));
}

#[test]
fn signin_with_corrupt_stored_hash_is_internal() {
    let mut repo = MemoryUsersRepository::new();
    let args = StartRegistrationRequest {
        name: "Ann".to_string(),
        email: "a@x.com".to_string(),
        username: "ann".to_string(),
        password: "p1".to_string(),
    };
    repo.createNewUser(&args, "not-a-hash", "123456", T0);
    assert_eq!(repo.verifyUser("a@x.com", "123456", T0 + 1), Ok(0));
    let uc = Usecases::new(repo, &config());
    let e = uc.signin(&signin("ann", "p1"), T0 + 60).err().unwrap();
    assert!(matches!(e, UsecaseError::Internal));
    assert_eq!(e.kind(), StatusKind::Internal);
}

#[test]
fn signin_of_unverified_user_is_not_found() {
    let mut uc = Usecases::new(MemoryUsersRepository::new(), &config());
    let args = StartRegistrationRequest {
        name: "Ann".to_string(),
        email: "a@x.com".to_string(),
        username: "ann".to_string(),
        password: "p1".to_string(),
    };
    assert!(uc.startRegistration(&args, T0).is_ok());
    let e = uc.signin(&signin("ann", "p1"), T0 + 60).err().unwrap();
    assert!(matches!(e, UsecaseError::UserNotFound));
}

#[test]
fn session_of_unknown_subject_is_refused() {
    let uc = verified_service();
    let token = createJwt(SECRET, "users:9", T0);
    assert!(matches!(uc.verifyJwt(&token, T0 + 1).err().unwrap(), UsecaseError::UserNotFound));
}

#[test]
fn signin_token_is_deterministic() {
    let uc = verified_service();
    let a = uc.signin(&signin("ann", "p1"), T0 + 60).ok().unwrap().jwt;
    let b = uc.signin(&signin("ann", "p1"), T0 + 60).ok().unwrap().jwt;
    assert_eq!(a, b);
    assert_eq!(a, createJwt(SECRET, "users:0", T0 + 60));
}

#[test]
fn session_expires_after_twelve_hours() {
    let uc = verified_service();
    let token = uc.signin(&signin("ann", "p1"), T0 + 60).ok().unwrap().jwt;
    assert!(uc.verifyJwt(&token, T0 + 60 + TOKEN_LIFETIME_SECS).is_ok());
    let e = uc.verifyJwt(&token, T0 + 61 + TOKEN_LIFETIME_SECS).err().unwrap();
    assert!(matches!(e, UsecaseError::SessionExpired));
}

#[test]
fn token_lifetime_is_twelve_hours() {
    assert_eq!(TOKEN_LIFETIME_SECS, 12 * 60 * 60);
    let token = createJwt(SECRET, "users:7", T0);
    assert_eq!(decodeJwt(SECRET, &token, T0 + 43200), Ok("users:7".to_string()));
    assert_eq!(decodeJwt(SECRET, &token, T0 + 43201), Err(TokenFault::Expired));
}

#[test]
fn token_with_altered_signature_is_invalid() {
    let token = createJwt(SECRET, "users:7", T0);
    let last = token.chars().last().unwrap();
    let swapped = if last == 'A' { 'B' } else { 'A' };
    let altered = format!("{}{}", &token[..token.len() - 1], swapped);
    assert_eq!(decodeJwt(SECRET, &altered, T0), Err(TokenFault::InvalidSignature));
    assert_eq!(decodeJwt(SECRET, &altered, T0 + 10 * TOKEN_LIFETIME_SECS), Err(TokenFault::InvalidSignature));
}

#[test]
fn token_under_another_secret_is_invalid() {
    let token = createJwt("other-secret", "users:7", T0);
    assert_eq!(decodeJwt(SECRET, &token, T0), Err(TokenFault::InvalidSignature));
}

#[test]
fn garbage_token_is_malformed() {
    assert_eq!(decodeJwt(SECRET, "not.a-token", T0), Err(TokenFault::Malformed));
    let uc = verified_service();
    assert!(matches!(uc.verifyJwt("garbage", T0).err().unwrap(), UsecaseError::Internal));
}

#[test]
fn altered_session_token_is_invalid_session() {
    let uc = verified_service();
    let token = uc.signin(&signin("ann", "p1"), T0 + 60).ok().unwrap().jwt;
    let last = token.chars().last().unwrap();
    let swapped = if last == 'A' { 'B' } else { 'A' };
    let altered = format!("{}{}", &token[..token.len() - 1], swapped);
    let e = uc.verifyJwt(&altered, T0 + 61).err().unwrap();
    assert!(matches!(e, UsecaseError::InvalidSession));
    assert_eq!(e.kind(), StatusKind::InvalidArgument);
}

#[test]
fn otp_is_six_digits_in_range() {
    for _ in 0..200 {
        let code = generateOtp();
        assert_eq!(code.len(), 6);
        assert!(code.chars().all(|c| c.is_ascii_digit()));
        let n: u32 = code.parse().unwrap();
        assert!((100000..=999999).contains(&n));
    }
}

#[test]
fn password_hash_round_trip() {
    let hash = hash_password("s3cret").unwrap();
    assert_ne!(hash, "s3cret");
    assert!(hash.starts_with("$argon2"));
    assert_eq!(verify_password("s3cret", &hash), PasswordCheck::Match);
    assert_eq!(verify_password("other", &hash), PasswordCheck::Mismatch);
    assert_eq!(verify_password("s3cret", "garbage"), PasswordCheck::Malformed);
}

#[test]
fn password_hashes_are_salted() {
    let a = hash_password("same").unwrap();
    let b = hash_password("same").unwrap();
    assert_ne!(a, b);
}
