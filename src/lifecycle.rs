use vstd::prelude::*;
use crate::credentials::{PasswordCheck, argon2_verdict, check_of};
use crate::model::{
    GRACE_PERIOD_SECS, StartRegistrationRequest, UserRecord, conflict_messages, email_conflict_text,
    record_conflicts, record_expired, reserves,
};
use crate::store::{
    VerifyFailure, credential_index, email_syntax, key_of, latest_match, lemma_latest_match, verification_outcome,
};
use crate::usecases::registered;

verus! {

/// A registration reserves its email: while the new record is within its grace period, any
/// registration of the same email meets a conflict that names the email, whatever username it
/// asks for.
pub proof fn lemma_registration_reserves_email(
    before: Seq<UserRecord>,
    after: Seq<UserRecord>,
    args: StartRegistrationRequest,
    now: int,
    later: int,
    username: Seq<char>,
)
    requires
        registered(before, after, args, now),
        later - now <= GRACE_PERIOD_SECS,
    ensures
        conflict_messages(after, args.email@, username, later).contains(email_conflict_text()),
{
    let earlier = conflict_messages(before, args.email@, username, later);
    let own = record_conflicts(after.last(), args.email@, username, later);
    assert(after.drop_last() == before);
    assert(reserves(after.last(), later));
    assert(own[0] == email_conflict_text());
    assert(conflict_messages(after, args.email@, username, later) == earlier + own);
    assert(conflict_messages(after, args.email@, username, later)[earlier.len() as int] == email_conflict_text());
}

/// `r` holds neither `email` nor `username`, or it was never verified and is past its grace
/// period at `now`.
pub open spec fn stale_or_unrelated(r: UserRecord, email: Seq<char>, username: Seq<char>, now: int) -> bool {
    (r.email@ == email || r.username@ == username) ==> !r.is_verified && record_expired(r.created_at as int, now)
}

/// Records that were never verified and are past their grace period reserve nothing: when
/// every record holding the email or the username is such a record, a registration of them
/// meets no conflict.
pub proof fn lemma_stale_records_reserve_nothing(
    records: Seq<UserRecord>,
    email: Seq<char>,
    username: Seq<char>,
    now: int,
)
    requires
        forall|i: int| 0 <= i < records.len() ==> stale_or_unrelated(#[trigger] records[i], email, username, now),
    ensures
        conflict_messages(records, email, username, now) == Seq::<Seq<char>>::empty(),
    decreases records.len(),
{
    if records.len() > 0 {
        let init = records.drop_last();
        assert forall|i: int| 0 <= i < init.len() implies stale_or_unrelated(#[trigger] init[i], email, username, now) by {
            assert(init[i] == records[i]);
        }
        lemma_stale_records_reserve_nothing(init, email, username, now);
        assert(stale_or_unrelated(records[records.len() - 1], email, username, now));
        assert(record_conflicts(records.last(), email, username, now) =~= Seq::<Seq<char>>::empty());
        assert(conflict_messages(records, email, username, now) =~= Seq::<Seq<char>>::empty());
    }
}

/// The record a registration adds is the most recent holder of its email and of its username,
/// when no earlier holder was created later.
pub proof fn lemma_registration_is_latest(
    before: Seq<UserRecord>,
    after: Seq<UserRecord>,
    args: StartRegistrationRequest,
    now: int,
    by_email: bool,
)
    requires
        registered(before, after, args, now),
        forall|i: int|
            0 <= i < before.len() && key_of(#[trigger] before[i], by_email) == key_of(after.last(), by_email)
                ==> before[i].created_at <= now,
    ensures
        latest_match(after, key_of(after.last(), by_email), by_email) == after.len() - 1,
{
    let key = key_of(after.last(), by_email);
    lemma_latest_match(before, key, by_email);
    let k = latest_match(before, key, by_email);
    assert(after.drop_last() == before);
    if k >= 0 {
        assert(after[k] == before[k]);
    }
}

/// Verifying a fresh registration: the right code within the grace period succeeds on the new
/// record, another code within it is a wrong code, and after it the user is not found. No
/// earlier record of the email may be younger than the new one.
pub proof fn lemma_verification_window(
    before: Seq<UserRecord>,
    after: Seq<UserRecord>,
    args: StartRegistrationRequest,
    now: int,
    later: int,
    code: Seq<char>,
)
    requires
        registered(before, after, args, now),
        forall|i: int|
            0 <= i < before.len() && (#[trigger] before[i]).email@ == args.email@ ==> before[i].created_at <= now,
    ensures
        later - now <= GRACE_PERIOD_SECS && code == after.last().verification_code@ ==> verification_outcome(
            after,
            args.email@,
            code,
            later,
        ) == Ok::<int, VerifyFailure>(after.len() - 1),
        later - now <= GRACE_PERIOD_SECS && code != after.last().verification_code@ ==> verification_outcome(
            after,
            args.email@,
            code,
            later,
        ) == Err::<int, VerifyFailure>(VerifyFailure::WrongCode),
        later - now > GRACE_PERIOD_SECS ==> verification_outcome(after, args.email@, code, later) == Err::<
            int,
            VerifyFailure,
        >(VerifyFailure::NotFound),
{
    assert forall|i: int|
        0 <= i < before.len() && key_of(#[trigger] before[i], true) == key_of(after.last(), true) implies before[i].created_at
        <= now by {
        assert(before[i].email@ == args.email@);
    }
    lemma_registration_is_latest(before, after, args, now, true);
}

/// Signing in as a fresh registration, by its username or by its email address, finds the new
/// record, and the password it was registered with matches the stored hash. No earlier holder
/// of the identifier may be younger than the new record.
pub proof fn lemma_registered_password_matches(
    before: Seq<UserRecord>,
    after: Seq<UserRecord>,
    args: StartRegistrationRequest,
    now: int,
    identifier: Seq<char>,
)
    requires
        registered(before, after, args, now),
        (identifier == args.username@ && !email_syntax(identifier)) || (identifier == args.email@
            && email_syntax(identifier)),
        forall|i: int|
            0 <= i < before.len() && key_of(#[trigger] before[i], email_syntax(identifier)) == identifier
                ==> before[i].created_at <= now,
    ensures
        credential_index(after, identifier) == after.len() - 1,
        check_of(argon2_verdict(args.password@, after[credential_index(after, identifier)].password_hash@))
            == PasswordCheck::Match,
{
    lemma_registration_is_latest(before, after, args, now, email_syntax(identifier));
}

} // verus!
