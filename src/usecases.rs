use vstd::prelude::*;
use crate::config::Config;
use crate::credentials::{PasswordCheck, argon2_verdict, check_of, hash_password, hashable, verify_password};
use crate::model::{
    SigninRequest, SigninResponse, StartRegistrationRequest, UserRecord, UserRegisteredEvent,
    VerifyUserRequest, conflict_messages,
};
use crate::otp::{generateOtp, is_verification_code};
use crate::store::{
    UsersRepository, VerifyFailure, credential_index, id_unused, verification_outcome, verified_at,
    verified_id_exists,
};
use crate::text::{join, joined, texts};
use crate::token::{
    TOKEN_LIFETIME_SECS, TokenFault, createJwt, decodeJwt, decoded, jwt_decoding, jwt_encoding,
    session_outcome,
};

verus! {

/// The fixed text of every internal failure.
pub const SERVER_ERROR: &'static str = "Server error occurred";

/// A failed identity operation. All but `Internal` are validation failures whose text is safe
/// to show to the caller.
pub enum UsecaseError {
    /// The email or username is held by another registration; one message per conflict.
    Conflicts(Vec<String>),
    UserNotFound,
    WrongVerificationCode,
    WrongPassword,
    SessionExpired,
    InvalidSession,
    /// A failure of the store, the hasher or the token service; its cause is not disclosed.
    Internal,
}

/// The two kinds of failure a caller can see.
#[derive(PartialEq, Eq, Structural, Clone, Copy, Debug)]
pub enum StatusKind {
    InvalidArgument,
    Internal,
}

pub open spec fn error_text(e: UsecaseError) -> Seq<char> {
    match e {
        UsecaseError::Conflicts(v) => joined(texts(v@), " | "@),
        UsecaseError::UserNotFound => "user not found"@,
        UsecaseError::WrongVerificationCode => "wrong verification code provided"@,
        UsecaseError::WrongPassword => "wrong password provided"@,
        UsecaseError::SessionExpired => "session token expired"@,
        UsecaseError::InvalidSession => "invalid session token"@,
        UsecaseError::Internal => SERVER_ERROR@,
    }
}

impl UsecaseError {
    /// The text shown to the caller.
    pub fn message(&self) -> (r: String)
        ensures
            r@ == error_text(*self),
    {
        match self {
            UsecaseError::Conflicts(v) => join(v, " | "),
            UsecaseError::UserNotFound => "user not found".to_owned(),
            UsecaseError::WrongVerificationCode => "wrong verification code provided".to_owned(),
            UsecaseError::WrongPassword => "wrong password provided".to_owned(),
            UsecaseError::SessionExpired => "session token expired".to_owned(),
            UsecaseError::InvalidSession => "invalid session token".to_owned(),
            UsecaseError::Internal => SERVER_ERROR.to_owned(),
        }
    }

    /// How the failure is reported: `Internal` for internal failures, `InvalidArgument` for
    /// the rest.
    pub fn kind(&self) -> (r: StatusKind)
        ensures
            r == (if *self is Internal {
                StatusKind::Internal
            } else {
                StatusKind::InvalidArgument
            }),
    {
        match self {
            UsecaseError::Internal => StatusKind::Internal,
            _ => StatusKind::InvalidArgument,
        }
    }
}

/// `after` is `before` with one new unverified record for `args`, created at `now`, under an
/// id no earlier record has, holding a verification code and a hash that `args.password`
/// verifies against.
pub open spec fn registered(before: Seq<UserRecord>, after: Seq<UserRecord>, args: StartRegistrationRequest, now: int) -> bool {
    let r = after.last();
    &&& after.len() == before.len() + 1
    &&& after.drop_last() == before
    &&& r.name@ == args.name@
    &&& r.email@ == args.email@
    &&& r.username@ == args.username@
    &&& !r.is_verified
    &&& r.created_at == now
    &&& is_verification_code(r.verification_code@)
    &&& argon2_verdict(args.password@, r.password_hash@) == Some(true)
    &&& id_unused(before, r.id@)
}

/// `e` announces the registration of `rec`.
pub open spec fn announces(e: UserRegisteredEvent, rec: UserRecord) -> bool {
    e.user_id@ == rec.id@ && e.name@ == rec.name@ && e.username@ == rec.username@
}

/// The validation failure that a refused token comes to.
pub open spec fn session_error(f: TokenFault) -> UsecaseError {
    match f {
        TokenFault::Expired => UsecaseError::SessionExpired,
        TokenFault::InvalidSignature => UsecaseError::InvalidSession,
        TokenFault::Malformed => UsecaseError::Internal,
    }
}

/// The four identity operations over a user repository and the token signing secret.
pub struct Usecases<R: UsersRepository> {
    db: R,
    jwt_secret: String,
}

impl<R: UsersRepository> Usecases<R> {
    /// The records of the repository.
    pub closed spec fn records(&self) -> Seq<UserRecord> {
        self.db.records()
    }

    /// The secret tokens are signed with.
    pub closed spec fn secret(&self) -> Seq<char> {
        self.jwt_secret@
    }

    /// The repository is well formed.
    pub closed spec fn well_formed(&self) -> bool {
        self.db.well_formed()
    }

    pub fn new(db: R, config: &Config) -> (r: Self)
        requires
            db.well_formed(),
        ensures
            r.well_formed(),
            r.records() == db.records(),
            r.secret() == config.jwt_secret@,
    {
        Usecases { db, jwt_secret: config.jwt_secret.clone() }
    }

    pub fn repository(&self) -> (r: &R)
        ensures
            r.records() == self.records(),
            r.well_formed() == self.well_formed(),
    {
        &self.db
    }

    /// Registers a new unverified user, unless its email or username is reserved; the
    /// verification code is kept in the record, never returned. Only a password too long for
    /// Argon2 fails otherwise, as an internal failure.
    pub fn startRegistration(&mut self, args: &StartRegistrationRequest, now: i64) -> (r: Result<(), UsecaseError>)
        requires
            old(self).well_formed(),
        ensures
            final(self).well_formed(),
            final(self).secret() == old(self).secret(),
            conflict_messages(old(self).records(), args.email@, args.username@, now as int).len() > 0 ==> (r matches Err(
                UsecaseError::Conflicts(v),
            ) && texts(v@) == conflict_messages(old(self).records(), args.email@, args.username@, now as int)
                && final(self).records() == old(self).records()),
            conflict_messages(old(self).records(), args.email@, args.username@, now as int).len() == 0 && hashable(
                args.password@,
            ) ==> r is Ok && registered(old(self).records(), final(self).records(), *args, now as int),
            conflict_messages(old(self).records(), args.email@, args.username@, now as int).len() == 0 && !hashable(
                args.password@,
            ) ==> (r is Ok && registered(old(self).records(), final(self).records(), *args, now as int)) || (r
                matches Err(UsecaseError::Internal) && final(self).records() == old(self).records()),
    {
        let conflicts = self.db.emailAndUsernameUniquenessCheck(args.email.as_str(), args.username.as_str(), now);
        if conflicts.len() > 0 {
            return Err(UsecaseError::Conflicts(conflicts));
        }
        let code = generateOtp();
        let hash = match hash_password(args.password.as_str()) {
            Some(h) => h,
            None => return Err(UsecaseError::Internal),
        };
        self.db.createNewUser(args, hash.as_str(), code.as_str(), now);
        Ok(())
    }

    /// Marks the user of `args.email` verified when the code matches within the grace period,
    /// and returns the fact of the completed registration.
    pub fn verifyUser(&mut self, args: &VerifyUserRequest, now: i64) -> (r: Result<UserRegisteredEvent, UsecaseError>)
        requires
            old(self).well_formed(),
        ensures
            final(self).well_formed(),
            final(self).secret() == old(self).secret(),
            match verification_outcome(old(self).records(), args.email@, args.verification_code@, now as int) {
                Ok(k) => r matches Ok(e) && announces(e, old(self).records()[k]) && final(self).records()
                    == verified_at(old(self).records(), k),
                Err(VerifyFailure::NotFound) => r matches Err(UsecaseError::UserNotFound)
                    && final(self).records() == old(self).records(),
                Err(VerifyFailure::WrongCode) => r matches Err(UsecaseError::WrongVerificationCode)
                    && final(self).records() == old(self).records(),
            },
    {
        proof {
            crate::store::lemma_latest_match(self.db.records(), args.email@, true);
        }
        let ghost before = self.db.records();
        match self.db.verifyUser(args.email.as_str(), args.verification_code.as_str(), now) {
            Err(VerifyFailure::NotFound) => Err(UsecaseError::UserNotFound),
            Err(VerifyFailure::WrongCode) => Err(UsecaseError::WrongVerificationCode),
            Ok(k) => {
                assert(self.db.records()[k as int].id == before[k as int].id);
                assert(self.db.records()[k as int].name == before[k as int].name);
                assert(self.db.records()[k as int].username == before[k as int].username);
                let rec = self.db.record(k);
                let event = UserRegisteredEvent {
                    user_id: rec.id.clone(),
                    name: rec.name.clone(),
                    username: rec.username.clone(),
                };
                assert(announces(event, before[k as int]));
                Ok(event)
            },
        }
    }

    /// Checks the password of the verified user that `args.identifier` names and issues a
    /// session token for that user at `now`. An unverified user is not found.
    pub fn signin(&self, args: &SigninRequest, now: i64) -> (r: Result<SigninResponse, UsecaseError>)
        requires
            self.well_formed(),
            now <= i64::MAX - TOKEN_LIFETIME_SECS,
        ensures
            ({
                let k = credential_index(self.records(), args.identifier@);
                let rec = self.records()[k];
                if k < 0 || !rec.is_verified {
                    r matches Err(UsecaseError::UserNotFound)
                } else {
                    match check_of(argon2_verdict(args.password@, rec.password_hash@)) {
                        PasswordCheck::Mismatch => r matches Err(UsecaseError::WrongPassword),
                        PasswordCheck::Malformed => r matches Err(UsecaseError::Internal),
                        PasswordCheck::Match => r matches Ok(resp) && resp.jwt@ == jwt_encoding(
                            self.secret(),
                            rec.id@,
                            now as int,
                            now + TOKEN_LIFETIME_SECS,
                        ) && jwt_decoding(self.secret(), resp.jwt@) == decoded(
                            rec.id@,
                            now as int,
                            now + TOKEN_LIFETIME_SECS,
                        ),
                    }
                }
            }),
    {
        proof {
            crate::store::lemma_latest_match(
                self.db.records(),
                args.identifier@,
                crate::store::email_syntax(args.identifier@),
            );
        }
        let credential = match self.db.fetchCredential(args.identifier.as_str()) {
            None => return Err(UsecaseError::UserNotFound),
            Some(c) => c,
        };
        if !credential.is_verified {
            return Err(UsecaseError::UserNotFound);
        }
        match verify_password(args.password.as_str(), credential.password_hash.as_str()) {
            PasswordCheck::Mismatch => Err(UsecaseError::WrongPassword),
            PasswordCheck::Malformed => Err(UsecaseError::Internal),
            PasswordCheck::Match => Ok(
                SigninResponse { jwt: createJwt(self.jwt_secret.as_str(), credential.user_id.as_str(), now) },
            ),
        }
    }

    /// Accepts a session token that is valid at `now` and whose subject is a verified user.
    pub fn verifyJwt(&self, jwt: &str, now: i64) -> (r: Result<(), UsecaseError>)
        requires
            self.well_formed(),
        ensures
            match session_outcome(self.secret(), jwt@, now as int) {
                Ok(sub) => if verified_id_exists(self.records(), sub) {
                    r is Ok
                } else {
                    r matches Err(UsecaseError::UserNotFound)
                },
                Err(f) => r == Err::<(), UsecaseError>(session_error(f)),
            },
    {
        match decodeJwt(self.jwt_secret.as_str(), jwt, now) {
            Err(TokenFault::Expired) => Err(UsecaseError::SessionExpired),
            Err(TokenFault::InvalidSignature) => Err(UsecaseError::InvalidSession),
            Err(TokenFault::Malformed) => Err(UsecaseError::Internal),
            Ok(id) => if self.db.verifiedUserWithIdExists(id.as_str()) {
                Ok(())
            } else {
                Err(UsecaseError::UserNotFound)
            },
        }
    }
}

} // verus!
