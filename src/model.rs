use vstd::prelude::*;

verus! {

/// How long, in seconds, an unverified registration keeps its email and username reserved.
pub const GRACE_PERIOD_SECS: i64 = 300;

/// A stored user.
pub struct UserRecord {
    pub id: String,
    pub name: String,
    pub email: String,
    pub username: String,
    /// Self-describing encoded hash: parameters, salt and digest.
    pub password_hash: String,
    pub is_verified: bool,
    pub verification_code: String,
    /// Seconds since the Unix epoch.
    pub created_at: i64,
}

/// The fields a new registration supplies.
pub struct StartRegistrationRequest {
    pub name: String,
    pub email: String,
    pub username: String,
    pub password: String,
}

pub struct VerifyUserRequest {
    pub email: String,
    pub verification_code: String,
}

pub struct SigninRequest {
    /// An email address or a username.
    pub identifier: String,
    pub password: String,
}

pub struct SigninResponse {
    pub jwt: String,
}

/// The fact, produced once a user is verified, that other contexts consume.
pub struct UserRegisteredEvent {
    pub user_id: String,
    pub name: String,
    pub username: String,
}

/// A record created at `created_at` is past its grace period at `now`.
pub open spec fn record_expired(created_at: int, now: int) -> bool {
    now - created_at > GRACE_PERIOD_SECS
}

/// Whether a record created at `created_at` is past its grace period at `now`.
pub fn has_user_record_expired(created_at: i64, now: i64) -> (r: bool)
    ensures
        r == record_expired(created_at as int, now as int),
{
    (now as i128) - (created_at as i128) > GRACE_PERIOD_SECS as i128
}

/// A record still reserves its email and username: it is verified, or within its grace period.
pub open spec fn reserves(r: UserRecord, now: int) -> bool {
    r.is_verified || !record_expired(r.created_at as int, now)
}

pub open spec fn email_conflict_text() -> Seq<char> {
    "email already registered"@
}

pub open spec fn username_conflict_text() -> Seq<char> {
    "username already taken"@
}

/// The conflicts that one stored record raises against a candidate email and username at
/// `now`: none when it no longer reserves anything, else one for the email if it holds it, then
/// one for the username if it holds it.
pub open spec fn record_conflicts(r: UserRecord, email: Seq<char>, username: Seq<char>, now: int) -> Seq<Seq<char>> {
    if !reserves(r, now) {
        Seq::empty()
    } else {
        (if r.email@ == email { seq![email_conflict_text()] } else { Seq::empty() }) + (if r.username@
            == username { seq![username_conflict_text()] } else { Seq::empty() })
    }
}

/// The conflicts a candidate email and username meet among `records` at `now`: those of each
/// record in turn, so that every collision is reported. Records past their grace period and
/// still unverified raise none.
pub open spec fn conflict_messages(records: Seq<UserRecord>, email: Seq<char>, username: Seq<char>, now: int) -> Seq<Seq<char>>
    decreases records.len(),
{
    if records.len() == 0 {
        Seq::empty()
    } else {
        conflict_messages(records.drop_last(), email, username, now) + record_conflicts(
            records.last(),
            email,
            username,
            now,
        )
    }
}

/// Applies the registration conflict policy to `candidates`.
pub fn registration_conflicts(candidates: &Vec<UserRecord>, email: &str, username: &str, now: i64) -> (r: Vec<String>)
    ensures
        crate::text::texts(r@) == conflict_messages(candidates@, email@, username@, now as int),
{
    let email_owned = email.to_owned();
    let username_owned = username.to_owned();
    let mut out: Vec<String> = Vec::new();
    let mut i: usize = 0;
    assert(candidates@.subrange(0, 0) =~= Seq::<UserRecord>::empty());
    assert(crate::text::texts(out@) =~= Seq::<Seq<char>>::empty());
    while i < candidates.len()
        invariant
            i <= candidates.len(),
            email_owned@ == email@,
            username_owned@ == username@,
            crate::text::texts(out@) == conflict_messages(candidates@.subrange(0, i as int), email@, username@, now as int),
        decreases candidates.len() - i,
    {
        let ghost prefix = candidates@.subrange(0, i + 1);
        assert(prefix.drop_last() =~= candidates@.subrange(0, i as int));
        assert(prefix.last() == candidates@[i as int]);
        let ghost before = crate::text::texts(out@);
        let c = &candidates[i];
        let ignored = !c.is_verified && has_user_record_expired(c.created_at, now);
        if !ignored {
            if c.email == email_owned {
                out.push("email already registered".to_owned());
            }
            if c.username == username_owned {
                out.push("username already taken".to_owned());
            }
            assert(crate::text::texts(out@) =~= before + record_conflicts(*c, email@, username@, now as int));
        } else {
            assert(crate::text::texts(out@) =~= before + record_conflicts(*c, email@, username@, now as int));
        }
        i = i + 1;
    }
    assert(candidates@.subrange(0, candidates@.len() as int) =~= candidates@);
    out
}

} // verus!
