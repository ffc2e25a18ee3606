use vstd::prelude::*;
use crate::model::{
    StartRegistrationRequest, UserRecord, conflict_messages, record_expired, has_user_record_expired,
    registration_conflicts,
};
use crate::text::{texts, decimal, decimal_text, lemma_decimal_injective};

verus! {

/// Why a verification attempt failed.
#[derive(PartialEq, Eq, Structural, Clone, Copy, Debug)]
pub enum VerifyFailure {
    /// No record holds the email, or the most recent one is past its grace period.
    NotFound,
    /// The most recent record holds another code.
    WrongCode,
}

/// Whether `s` is a syntactically valid email address, as validator judges it.
pub uninterp spec fn email_syntax(s: Seq<char>) -> bool;

/// Relies on validator::validate_email, whose verdict depends on the text alone.
#[verifier::external_body]
fn is_email_address(s: &str) -> (r: bool)
    ensures
        r == email_syntax(s@),
{
    validator::validate_email(s)
}

/// What signing in needs of a stored user.
pub struct Credential {
    pub user_id: String,
    pub password_hash: String,
    pub is_verified: bool,
}

/// The field of a record that an identifier is compared with.
pub open spec fn key_of(r: UserRecord, by_email: bool) -> Seq<char> {
    if by_email {
        r.email@
    } else {
        r.username@
    }
}

/// Index of the most recent record whose email (or username) is `key`: the one created last,
/// and of those created at the same time the one stored last; -1 if no record holds the key.
pub open spec fn latest_match(records: Seq<UserRecord>, key: Seq<char>, by_email: bool) -> int
    decreases records.len(),
{
    if records.len() == 0 {
        -1
    } else {
        let k = latest_match(records.drop_last(), key, by_email);
        if key_of(records.last(), by_email) == key && (k < 0 || records[k].created_at
            <= records.last().created_at) {
            records.len() - 1
        } else {
            k
        }
    }
}

pub proof fn lemma_latest_match(records: Seq<UserRecord>, key: Seq<char>, by_email: bool)
    ensures
        -1 <= latest_match(records, key, by_email) < records.len(),
        latest_match(records, key, by_email) >= 0 ==> key_of(
            records[latest_match(records, key, by_email)],
            by_email,
        ) == key,
        latest_match(records, key, by_email) < 0 ==> forall|j: int|
            0 <= j < records.len() ==> key_of(#[trigger] records[j], by_email) != key,
        forall|j: int|
            0 <= j < records.len() && key_of(#[trigger] records[j], by_email) == key ==> records[j].created_at
                <= records[latest_match(records, key, by_email)].created_at,
    decreases records.len(),
{
    if records.len() > 0 {
        let init = records.drop_last();
        lemma_latest_match(init, key, by_email);
        assert forall|j: int| 0 <= j < records.len() - 1 implies #[trigger] records[j] == init[j] by {}
    }
}

/// What verifying `email` with `code` at `now` comes to: the index of the record to mark
/// verified, or the failure. The most recent record holding the email decides; past its grace
/// period it counts as absent, verified or not.
pub open spec fn verification_outcome(records: Seq<UserRecord>, email: Seq<char>, code: Seq<char>, now: int) -> Result<int, VerifyFailure> {
    let k = latest_match(records, email, true);
    if k < 0 || record_expired(records[k].created_at as int, now) {
        Err(VerifyFailure::NotFound)
    } else if records[k].verification_code@ != code {
        Err(VerifyFailure::WrongCode)
    } else {
        Ok(k)
    }
}

/// `records` with the record at `k` marked verified.
pub open spec fn verified_at(records: Seq<UserRecord>, k: int) -> Seq<UserRecord> {
    records.update(k, UserRecord { is_verified: true, ..records[k] })
}

/// Index of the record that `identifier` names: it is compared with emails when it is a valid
/// email address, with usernames otherwise, and the most recent match wins; -1 if none.
pub open spec fn credential_index(records: Seq<UserRecord>, identifier: Seq<char>) -> int {
    latest_match(records, identifier, email_syntax(identifier))
}

pub open spec fn verified_id_exists(records: Seq<UserRecord>, id: Seq<char>) -> bool {
    exists|i: int| 0 <= i < records.len() && #[trigger] records[i].id@ == id && records[i].is_verified
}

/// `r` is the unverified record a registration of `args` creates at `now`.
pub open spec fn fresh_record(r: UserRecord, args: StartRegistrationRequest, hash: Seq<char>, code: Seq<char>, now: int) -> bool {
    &&& r.name@ == args.name@
    &&& r.email@ == args.email@
    &&& r.username@ == args.username@
    &&& r.password_hash@ == hash
    &&& !r.is_verified
    &&& r.verification_code@ == code
    &&& r.created_at == now
}

/// No record of `records` has the id `id`.
pub open spec fn id_unused(records: Seq<UserRecord>, id: Seq<char>) -> bool {
    forall|i: int| 0 <= i < records.len() ==> (#[trigger] records[i]).id@ != id
}

/// Where user records are kept. Each operation is stated over `records`, oldest first, and
/// keeps the repository well formed.
///
/// A uniqueness check followed by `createNewUser` is not atomic on a backend that several
/// callers share: two registrations of one email can both pass the check and both be stored.
/// Such a backend must either accept that or enforce uniqueness itself. The in-memory repository
/// is reached only through `&mut`, so there the pair cannot interleave.
pub trait UsersRepository: Sized {
    spec fn records(&self) -> Seq<UserRecord>;

    /// The repository's own invariant.
    spec fn well_formed(&self) -> bool;

    /// The conflicts that a registration of `email` and `username` meets at `now`.
    fn emailAndUsernameUniquenessCheck(&self, email: &str, username: &str, now: i64) -> (r: Vec<String>)
        requires
            self.well_formed(),
        ensures
            texts(r@) == conflict_messages(self.records(), email@, username@, now as int),
    ;

    /// Adds an unverified record for `args`, created at `now`, under an id no record has.
    fn createNewUser(&mut self, args: &StartRegistrationRequest, password_hash: &str, verification_code: &str, now: i64)
        requires
            old(self).well_formed(),
        ensures
            final(self).well_formed(),
            final(self).records().len() == old(self).records().len() + 1,
            final(self).records().drop_last() == old(self).records(),
            fresh_record(final(self).records().last(), *args, password_hash@, verification_code@, now as int),
            id_unused(old(self).records(), final(self).records().last().id@),
    ;

    /// Marks verified the most recent record of `email`, if it is within its grace period and
    /// holds `verification_code`; returns its index.
    fn verifyUser(&mut self, email: &str, verification_code: &str, now: i64) -> (r: Result<usize, VerifyFailure>)
        requires
            old(self).well_formed(),
        ensures
            final(self).well_formed(),
            match verification_outcome(old(self).records(), email@, verification_code@, now as int) {
                Ok(k) => r matches Ok(j) && j == k && final(self).records() == verified_at(
                    old(self).records(),
                    k,
                ),
                Err(f) => r == Err::<usize, VerifyFailure>(f) && final(self).records() == old(self).records(),
            },
    ;

    /// The id, password hash and verification flag of the record that `identifier` names.
    fn fetchCredential(&self, identifier: &str) -> (r: Option<Credential>)
        requires
            self.well_formed(),
        ensures
            ({
                let k = credential_index(self.records(), identifier@);
                if k < 0 {
                    r is None
                } else {
                    r is Some && r->0.user_id@ == self.records()[k].id@ && r->0.password_hash@
                        == self.records()[k].password_hash@ && r->0.is_verified == self.records()[k].is_verified
                }
            }),
    ;

    /// Whether a verified record has the id `id`.
    fn verifiedUserWithIdExists(&self, id: &str) -> (r: bool)
        requires
            self.well_formed(),
        ensures
            r == verified_id_exists(self.records(), id@),
    ;

    /// The record at `i`.
    fn record(&self, i: usize) -> (r: &UserRecord)
        requires
            self.well_formed(),
            i < self.records().len(),
        ensures
            *r == self.records()[i as int],
    ;
}

/// A repository held in memory; the record at index `i` has the id `users:<i>`.
pub struct MemoryUsersRepository {
    records: Vec<UserRecord>,
}

pub open spec fn memory_id(i: nat) -> Seq<char> {
    "users:"@ + decimal(i)
}

/// Records at different indices have different ids.
pub proof fn lemma_memory_id_injective(i: nat, j: nat)
    requires
        memory_id(i) == memory_id(j),
    ensures
        i == j,
{
    let p = "users:"@;
    assert(memory_id(i).subrange(p.len() as int, memory_id(i).len() as int) =~= decimal(i));
    assert(memory_id(j).subrange(p.len() as int, memory_id(j).len() as int) =~= decimal(j));
    lemma_decimal_injective(i, j);
}

impl MemoryUsersRepository {
    pub fn new() -> (r: Self)
        ensures
            r.records() == Seq::<UserRecord>::empty(),
            r.well_formed(),
    {
        MemoryUsersRepository { records: Vec::new() }
    }

    pub fn len(&self) -> (r: usize)
        ensures
            r == self.records().len(),
    {
        self.records.len()
    }

    /// Index of the most recent record whose email (or username) is `key`.
    fn find_latest(&self, key: &str, by_email: bool) -> (r: Option<usize>)
        ensures
            match r {
                Some(k) => k as int == latest_match(self.records@, key@, by_email),
                None => latest_match(self.records@, key@, by_email) == -1,
            },
    {
        let wanted = key.to_owned();
        let mut best: Option<usize> = None;
        let mut i: usize = 0;
        assert(self.records@.subrange(0, 0) =~= Seq::<UserRecord>::empty());
        while i < self.records.len()
            invariant
                i <= self.records@.len(),
                wanted@ == key@,
                match best {
                    Some(k) => k < i && k as int == latest_match(self.records@.subrange(0, i as int), key@, by_email),
                    None => latest_match(self.records@.subrange(0, i as int), key@, by_email) == -1,
                },
            decreases self.records.len() - i,
        {
            let ghost prefix = self.records@.subrange(0, i + 1);
            assert(prefix.drop_last() =~= self.records@.subrange(0, i as int));
            assert(prefix.last() == self.records@[i as int]);
            let r = &self.records[i];
            let hit = if by_email {
                r.email == wanted
            } else {
                r.username == wanted
            };
            if hit {
                match best {
                    None => {
                        best = Some(i);
                    },
                    Some(k) => {
                        assert(prefix[k as int] == self.records@[k as int]);
                        if self.records[k].created_at <= r.created_at {
                            best = Some(i);
                        }
                    },
                }
            }
            i = i + 1;
        }
        assert(self.records@.subrange(0, self.records@.len() as int) =~= self.records@);
        best
    }
}

impl UsersRepository for MemoryUsersRepository {
    closed spec fn records(&self) -> Seq<UserRecord> {
        self.records@
    }

    closed spec fn well_formed(&self) -> bool {
        forall|i: int| 0 <= i < self.records@.len() ==> (#[trigger] self.records@[i]).id@ == memory_id(i as nat)
    }

    fn emailAndUsernameUniquenessCheck(&self, email: &str, username: &str, now: i64) -> (r: Vec<String>) {
        registration_conflicts(&self.records, email, username, now)
    }

    fn createNewUser(&mut self, args: &StartRegistrationRequest, password_hash: &str, verification_code: &str, now: i64) {
        let index = self.records.len();
        let id = "users:".to_owned().concat(decimal_text(index as u64).as_str());
        let record = UserRecord {
            id,
            name: args.name.clone(),
            email: args.email.clone(),
            username: args.username.clone(),
            password_hash: password_hash.to_owned(),
            is_verified: false,
            verification_code: verification_code.to_owned(),
            created_at: now,
        };
        self.records.push(record);
        assert(self.records@.drop_last() =~= old(self).records@);
        assert forall|i: int| 0 <= i < old(self).records@.len() implies (#[trigger] old(
            self,
        ).records@[i]).id@ != self.records@.last().id@ by {
            if old(self).records@[i].id@ == self.records@.last().id@ {
                lemma_memory_id_injective(i as nat, index as nat);
            }
        }
        assert forall|i: int| 0 <= i < self.records@.len() implies (#[trigger] self.records@[i]).id@ == memory_id(
            i as nat,
        ) by {
            if i < index {
                assert(self.records@[i] == old(self).records@[i]);
            }
        }
    }

    fn verifyUser(&mut self, email: &str, verification_code: &str, now: i64) -> (r: Result<usize, VerifyFailure>) {
        proof {
            lemma_latest_match(self.records@, email@, true);
        }
        let k = match self.find_latest(email, true) {
            None => return Err(VerifyFailure::NotFound),
            Some(k) => k,
        };
        if has_user_record_expired(self.records[k].created_at, now) {
            return Err(VerifyFailure::NotFound);
        }
        if self.records[k].verification_code != verification_code.to_owned() {
            return Err(VerifyFailure::WrongCode);
        }
        self.records[k].is_verified = true;
        assert(self.records@ =~= verified_at(old(self).records@, k as int));
        assert forall|i: int| 0 <= i < self.records@.len() implies (#[trigger] self.records@[i]).id@ == memory_id(
            i as nat,
        ) by {
            assert(self.records@[i].id == old(self).records@[i].id);
        }
        Ok(k)
    }

    fn fetchCredential(&self, identifier: &str) -> (r: Option<Credential>) {
        proof {
            lemma_latest_match(self.records@, identifier@, email_syntax(identifier@));
        }
        let by_email = is_email_address(identifier);
        match self.find_latest(identifier, by_email) {
            None => None,
            Some(k) => Some(
                Credential {
                    user_id: self.records[k].id.clone(),
                    password_hash: self.records[k].password_hash.clone(),
                    is_verified: self.records[k].is_verified,
                },
            ),
        }
    }

    fn verifiedUserWithIdExists(&self, id: &str) -> (r: bool) {
        let wanted = id.to_owned();
        let mut i: usize = 0;
        while i < self.records.len()
            invariant
                i <= self.records@.len(),
                wanted@ == id@,
                forall|j: int|
                    0 <= j < i ==> !(#[trigger] self.records@[j].id@ == id@ && self.records@[j].is_verified),
            decreases self.records.len() - i,
        {
            if self.records[i].is_verified && self.records[i].id == wanted {
                assert(self.records@[i as int].id@ == id@);
                assert(verified_id_exists(self.records@, id@));
                return true;
            }
            i = i + 1;
        }
        false
    }

    fn record(&self, i: usize) -> (r: &UserRecord) {
        &self.records[i]
    }
}

} // verus!
