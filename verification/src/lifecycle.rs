//! The life of a verification challenge, stated over the tables of the
//! datastore: what issuing one and answering one do, and when each is
//! refused.

use crate::dao::{
    answers, none_answering, none_named, none_of, several, several_answering, several_named,
    sole, sole_answering, sole_named, Datastore,
};
use crate::models::{IdentityVerifyRequestView, NotifyRequestView};
use vstd::prelude::*;

verus! {

/// How far, in seconds, the caller's clock may be from the server's, either
/// way.
pub const CLOCK_TOLERANCE: i64 = 300;

/// How long, in seconds, a challenge can be answered.
pub const CHALLENGE_LIFETIME: i64 = 300;

/// How long, in seconds, the message that carries the secret is worth
/// delivering. It outlives the challenge, so that a delivery that lags does
/// not find the message expired before the secret is.
pub const NOTIFICATION_LIFETIME: i64 = 900;

/// How a call of the service ends.
#[derive(Debug, Clone, Copy, PartialEq, Eq, Structural)]
pub enum Verdict {
    /// The call did what it was asked to.
    Done,
    /// No employee goes by the name, or no challenge goes by the reference
    /// and can still be answered.
    NotFound,
    /// The secret is not the one of the challenge.
    VerificationFailed,
    /// The caller's clock is too far from the server's.
    ClockSkew,
    /// The datastore holds two rows where it may hold one.
    InvariantViolation,
    /// The datastore failed.
    StorageFailure,
}

/// The two clocks are more than the tolerance apart.
pub open spec fn clock_skewed(client: i64, server: i64) -> bool {
    client - server > CLOCK_TOLERANCE || server - client > CLOCK_TOLERANCE
}

/// The instant `lifetime` seconds after `now`.
pub open spec fn deadline(now: i64, lifetime: i64) -> i64 {
    (now + lifetime) as i64
}

/// The title of the message that carries a secret.
pub open spec fn notification_title() -> Seq<char> {
    "Simurgh Identity Verification System"@
}

/// The body of the message that carries `secret`.
pub open spec fn notification_body(secret: Seq<char>) -> Seq<char> {
    "Verification code: "@ + secret
}

/// The challenge that is issued to `employee_id` at `now`.
pub open spec fn new_challenge(
    employee_id: i32,
    now: i64,
    secret: Seq<char>,
    reference: Seq<char>,
) -> IdentityVerifyRequestView {
    IdentityVerifyRequestView {
        id: None,
        reference: Some(reference),
        secret: Some(secret),
        active: Some(true),
        create_utc_dt: Some(now),
        expire_utc_dt: Some(deadline(now, CHALLENGE_LIFETIME)),
        verified_utc_dt: None,
        employee_id: Some(employee_id),
    }
}

/// The message that carries `secret` to `employee_id`. The reference is not
/// in it.
pub open spec fn new_notification(employee_id: i32, now: i64, secret: Seq<char>) -> NotifyRequestView {
    NotifyRequestView {
        id: None,
        title: Some(notification_title()),
        body: Some(notification_body(secret)),
        create_utc_dt: Some(now),
        expire_utc_dt: Some(deadline(now, NOTIFICATION_LIFETIME)),
        send_utc_dt: None,
        employee_id: Some(employee_id),
    }
}

/// The employee who goes by `username`, where there is exactly one.
pub open spec fn employee_called(s: Datastore, username: Seq<char>) -> i32 {
    choose|k: i32| sole_named(s.employees.rows, username, k)
}

/// The challenge that `reference` names and that can be answered at `now`,
/// where there is exactly one.
pub open spec fn challenge_answering(s: Datastore, reference: Seq<char>, now: i64) -> i32 {
    choose|k: i32| sole_answering(s.requests.rows, reference, now, k)
}

/// The datastore after a challenge has been issued to `employee_id`: the
/// employee's earlier challenges are no longer active, the new one is, and
/// the message with the secret waits to be delivered.
pub open spec fn issued(
    s: Datastore,
    employee_id: i32,
    now: i64,
    secret: Seq<char>,
    reference: Seq<char>,
) -> Datastore {
    s.requests_deactivated(employee_id).request_added(
        new_challenge(employee_id, now, secret, reference),
    ).notification_added(new_notification(employee_id, now, secret))
}

/// How issuing a challenge for `username` ends on a datastore that does not
/// fail.
pub open spec fn issue_verdict(s: Datastore, username: Seq<char>, client: i64, now: i64) -> Verdict {
    if clock_skewed(client, now) {
        Verdict::ClockSkew
    } else if none_named(s.employees.rows, username) {
        Verdict::NotFound
    } else if several_named(s.employees.rows, username) {
        Verdict::InvariantViolation
    } else if s.requests.has_room() && s.notifications.has_room() {
        Verdict::Done
    } else {
        Verdict::StorageFailure
    }
}

/// The datastore after the challenge that `reference` names has been
/// answered at `now`.
pub open spec fn checked(s: Datastore, reference: Seq<char>, now: i64) -> Datastore {
    s.request_verified(challenge_answering(s, reference, now), now)
}

/// How answering the challenge `reference` with `secret` ends on a datastore
/// that does not fail.
pub open spec fn check_verdict(
    s: Datastore,
    reference: Seq<char>,
    secret: Seq<char>,
    client: i64,
    now: i64,
) -> Verdict {
    if clock_skewed(client, now) {
        Verdict::ClockSkew
    } else if none_answering(s.requests.rows, reference, now) {
        Verdict::NotFound
    } else if several_answering(s.requests.rows, reference, now) {
        Verdict::InvariantViolation
    } else if s.requests.rows[challenge_answering(s, reference, now)].secret == Some(secret) {
        Verdict::Done
    } else {
        Verdict::VerificationFailed
    }
}

/// No employee has two active challenges.
pub open spec fn one_active_each(s: Datastore) -> bool {
    forall|j: i32, k: i32|
        #![trigger s.requests.rows[j], s.requests.rows[k]]
        s.requests.rows.contains_key(j) && s.requests.rows.contains_key(k)
            && s.requests.rows[j].active == Some(true) && s.requests.rows[k].active == Some(true)
            && s.requests.rows[j].employee_id is Some && s.requests.rows[j].employee_id
            == s.requests.rows[k].employee_id ==> j == k
}

/// No challenge that has been answered is active.
pub open spec fn verified_are_inactive(s: Datastore) -> bool {
    forall|k: i32|
        s.requests.rows.contains_key(k) && (#[trigger] s.requests.rows[k]).verified_utc_dt is Some
            ==> s.requests.rows[k].active == Some(false)
}

/// Of the rows of `rows`, `p` accepts none, exactly one, or several.
pub proof fn none_sole_or_several<V>(rows: Map<i32, V>, p: spec_fn(V) -> bool)
    ensures
        none_of(rows, p) || several(rows, p) || exists|k: i32| sole(rows, p, k),
        none_of(rows, p) ==> !several(rows, p),
        forall|k: i32| sole(rows, p, k) ==> !none_of(rows, p) && !several(rows, p),
{
    if !none_of(rows, p) {
        let k = choose|k: i32| #[trigger] rows.contains_key(k) && p(rows[k]);
        if !sole(rows, p, k) {
            let j = choose|j: i32| #[trigger] rows.contains_key(j) && p(rows[j]) && j != k;
            assert(rows.contains_key(j) && rows.contains_key(k));
            assert(several(rows, p));
        }
    }
}

/// Where exactly one challenge answers to `reference` at `now`, it is the
/// one that `challenge_answering` names.
pub proof fn sole_challenge_is_chosen(s: Datastore, reference: Seq<char>, now: i64, k: i32)
    requires
        sole_answering(s.requests.rows, reference, now, k),
    ensures
        challenge_answering(s, reference, now) == k,
        !none_answering(s.requests.rows, reference, now),
        !several_answering(s.requests.rows, reference, now),
{
    let chosen = challenge_answering(s, reference, now);
    assert(sole_answering(s.requests.rows, reference, now, chosen));
    none_sole_or_several(s.requests.rows, |q| answers(q, reference, now));
}

/// Issuing a challenge leaves no employee with two active challenges, where
/// none had two before.
pub proof fn issue_keeps_one_active_each(
    s: Datastore,
    employee_id: i32,
    now: i64,
    secret: Seq<char>,
    reference: Seq<char>,
)
    requires
        s.wf(),
        s.requests.has_room(),
        one_active_each(s),
    ensures
        one_active_each(issued(s, employee_id, now, secret, reference)),
{
    let after = issued(s, employee_id, now, secret, reference);
    let fresh = s.requests.next_id();
    assert(!s.requests.rows.contains_key(fresh));
    assert forall|j: i32, k: i32|
        #![trigger after.requests.rows[j], after.requests.rows[k]]
        after.requests.rows.contains_key(j) && after.requests.rows.contains_key(k)
            && after.requests.rows[j].active == Some(true) && after.requests.rows[k].active
            == Some(true) && after.requests.rows[j].employee_id is Some
            && after.requests.rows[j].employee_id
            == after.requests.rows[k].employee_id implies j == k by {
        if j != fresh && k != fresh {
            assert(s.requests.rows.contains_key(j) && s.requests.rows.contains_key(k));
            assert(s.requests.rows[j].active == Some(true));
            assert(s.requests.rows[k].active == Some(true));
        }
    }
}

/// After a challenge has been issued to an employee, it is the one active
/// challenge of that employee, however many were active before.
pub proof fn issue_leaves_the_new_challenge_active(
    s: Datastore,
    employee_id: i32,
    now: i64,
    secret: Seq<char>,
    reference: Seq<char>,
)
    requires
        s.wf(),
        s.requests.has_room(),
    ensures
        ({
            let after = issued(s, employee_id, now, secret, reference);
            let fresh = s.requests.next_id();
            &&& after.requests.rows.contains_key(fresh)
            &&& after.requests.rows[fresh] == new_challenge(
                employee_id,
                now,
                secret,
                reference,
            ).with_id(fresh)
            &&& forall|k: i32|
                after.requests.rows.contains_key(k) && (#[trigger] after.requests.rows[k]).active
                    == Some(true) && after.requests.rows[k].employee_id == Some(employee_id) ==> k
                    == fresh
        }),
{
    let after = issued(s, employee_id, now, secret, reference);
    let fresh = s.requests.next_id();
    assert(!s.requests.rows.contains_key(fresh));
    assert forall|k: i32|
        after.requests.rows.contains_key(k) && (#[trigger] after.requests.rows[k]).active == Some(
            true,
        ) && after.requests.rows[k].employee_id == Some(employee_id) implies k == fresh by {
        if k != fresh {
            assert(s.requests.rows.contains_key(k));
        }
    }
}

/// Answering a challenge leaves no employee with two active challenges,
/// where none had two before.
pub proof fn check_keeps_one_active_each(s: Datastore, reference: Seq<char>, now: i64)
    requires
        one_active_each(s),
    ensures
        one_active_each(checked(s, reference, now)),
{
    let after = checked(s, reference, now);
    let answered = challenge_answering(s, reference, now);
    assert forall|j: i32, k: i32|
        #![trigger after.requests.rows[j], after.requests.rows[k]]
        after.requests.rows.contains_key(j) && after.requests.rows.contains_key(k)
            && after.requests.rows[j].active == Some(true) && after.requests.rows[k].active
            == Some(true) && after.requests.rows[j].employee_id is Some
            && after.requests.rows[j].employee_id
            == after.requests.rows[k].employee_id implies j == k by {
        if j != answered && k != answered {
            assert(s.requests.rows.contains_key(j) && s.requests.rows.contains_key(k));
            assert(s.requests.rows[j].active == Some(true));
            assert(s.requests.rows[k].active == Some(true));
        }
    }
}

/// What answering a challenge that has just been issued comes to, where no
/// challenge of another employee answers to the same reference: before the
/// challenge expires the right secret is accepted and any other refused,
/// and from its expiry on the challenge is not found, whatever the secret.
pub proof fn check_of_issued_challenge(
    s: Datastore,
    employee_id: i32,
    issued_at: i64,
    secret: Seq<char>,
    reference: Seq<char>,
    guess: Seq<char>,
    client: i64,
    now: i64,
)
    requires
        s.wf(),
        s.requests.has_room(),
        issued_at + CHALLENGE_LIFETIME <= i64::MAX,
        !clock_skewed(client, now),
        forall|k: i32|
            s.requests.rows.contains_key(k) && s.requests.rows[k].employee_id != Some(
                employee_id,
            ) ==> !answers(#[trigger] s.requests.rows[k], reference, now),
    ensures
        check_verdict(issued(s, employee_id, issued_at, secret, reference), reference, guess, client, now)
            == if now >= issued_at + CHALLENGE_LIFETIME {
            Verdict::NotFound
        } else if guess == secret {
            Verdict::Done
        } else {
            Verdict::VerificationFailed
        },
{
    let after = issued(s, employee_id, issued_at, secret, reference);
    let fresh = s.requests.next_id();
    assert(!s.requests.rows.contains_key(fresh));
    assert(after.requests.rows.contains_key(fresh));
    assert forall|j: i32| #[trigger]
        after.requests.rows.contains_key(j) && j != fresh implies !answers(
        after.requests.rows[j],
        reference,
        now,
    ) by {
        assert(s.requests.rows.contains_key(j));
    }
    if now >= issued_at + CHALLENGE_LIFETIME {
        assert(none_answering(after.requests.rows, reference, now));
    } else {
        assert(answers(after.requests.rows[fresh], reference, now));
        assert(sole_answering(after.requests.rows, reference, now, fresh));
        sole_challenge_is_chosen(after, reference, now, fresh);
    }
}

/// After its expiry a challenge is not found, whatever the secret: where
/// every challenge that goes by `reference` has expired at `now`, an answer
/// to `reference` at `now` finds none.
pub proof fn check_after_expiry_is_not_found(
    s: Datastore,
    reference: Seq<char>,
    secret: Seq<char>,
    client: i64,
    now: i64,
)
    requires
        !clock_skewed(client, now),
        forall|k: i32|
            s.requests.rows.contains_key(k) && (#[trigger] s.requests.rows[k]).reference == Some(
                reference,
            ) && s.requests.rows[k].expire_utc_dt is Some ==> s.requests.rows[k].expire_utc_dt->0
                <= now,
    ensures
        check_verdict(s, reference, secret, client, now) == Verdict::NotFound,
{
    assert forall|k: i32| #[trigger] s.requests.rows.contains_key(k) implies !answers(
        s.requests.rows[k],
        reference,
        now,
    ) by {
        let row = s.requests.rows[k];
    }
    assert(none_answering(s.requests.rows, reference, now));
}

/// A second challenge for an employee puts the first out of use: the first
/// reference is not found any more, even with the first secret. This is
/// stated where the second challenge and the challenges of other employees
/// do not answer to the first reference.
pub proof fn second_issue_supersedes_first(
    s: Datastore,
    employee_id: i32,
    first_at: i64,
    first_secret: Seq<char>,
    first_reference: Seq<char>,
    second_at: i64,
    second_secret: Seq<char>,
    second_reference: Seq<char>,
    guess: Seq<char>,
    client: i64,
    now: i64,
)
    requires
        s.wf(),
        s.requests.last_id + 2 <= i32::MAX,
        !clock_skewed(client, now),
        !answers(
            new_challenge(employee_id, second_at, second_secret, second_reference),
            first_reference,
            now,
        ),
        forall|k: i32|
            s.requests.rows.contains_key(k) && s.requests.rows[k].employee_id != Some(
                employee_id,
            ) ==> !answers(#[trigger] s.requests.rows[k], first_reference, now),
    ensures
        check_verdict(
            issued(
                issued(s, employee_id, first_at, first_secret, first_reference),
                employee_id,
                second_at,
                second_secret,
                second_reference,
            ),
            first_reference,
            guess,
            client,
            now,
        ) == Verdict::NotFound,
{
    let first = issued(s, employee_id, first_at, first_secret, first_reference);
    let second = issued(first, employee_id, second_at, second_secret, second_reference);
    let first_id = s.requests.next_id();
    let second_id = first.requests.next_id();
    assert(!s.requests.rows.contains_key(first_id));
    assert(!s.requests.rows.contains_key(second_id));
    assert forall|j: i32| #[trigger] second.requests.rows.contains_key(j) implies !answers(
        second.requests.rows[j],
        first_reference,
        now,
    ) by {
        if j == second_id {
        } else if j == first_id {
            assert(first.requests.rows.contains_key(j));
        } else {
            assert(first.requests.rows.contains_key(j));
            assert(s.requests.rows.contains_key(j));
        }
    }
    assert(none_answering(second.requests.rows, first_reference, now));
}

/// A challenge is answered once: after the answer that was accepted, the
/// reference is not found any more, whatever the secret. This is stated
/// where no other challenge answers to the reference at the time of the
/// second answer.
pub proof fn successful_check_is_single_use(
    s: Datastore,
    reference: Seq<char>,
    secret: Seq<char>,
    client: i64,
    now: i64,
    guess: Seq<char>,
    later_client: i64,
    later: i64,
)
    requires
        check_verdict(s, reference, secret, client, now) == Verdict::Done,
        !clock_skewed(later_client, later),
        forall|j: i32|
            s.requests.rows.contains_key(j) && j != challenge_answering(s, reference, now)
                ==> !answers(#[trigger] s.requests.rows[j], reference, later),
    ensures
        check_verdict(checked(s, reference, now), reference, guess, later_client, later)
            == Verdict::NotFound,
{
    let after = checked(s, reference, now);
    let answered = challenge_answering(s, reference, now);
    assert forall|j: i32| #[trigger] after.requests.rows.contains_key(j) implies !answers(
        after.requests.rows[j],
        reference,
        later,
    ) by {
        if j != answered {
            assert(s.requests.rows.contains_key(j));
        }
    }
    assert(none_answering(after.requests.rows, reference, later));
}

/// Time does not bring a challenge back: where one challenge answers to
/// `reference` at `now`, no other does at any later time.
pub proof fn no_other_challenge_later(s: Datastore, reference: Seq<char>, now: i64, later: i64)
    requires
        !none_answering(s.requests.rows, reference, now),
        !several_answering(s.requests.rows, reference, now),
        now <= later,
    ensures
        forall|j: i32|
            s.requests.rows.contains_key(j) && j != challenge_answering(s, reference, now)
                ==> !answers(#[trigger] s.requests.rows[j], reference, later),
{
    let p = |q: IdentityVerifyRequestView| answers(q, reference, now);
    none_sole_or_several(s.requests.rows, p);
    let k = choose|k: i32| sole(s.requests.rows, p, k);
    assert(sole_answering(s.requests.rows, reference, now, k));
    sole_challenge_is_chosen(s, reference, now, k);
    assert forall|j: i32|
        s.requests.rows.contains_key(j) && j != challenge_answering(
            s,
            reference,
            now,
        ) implies !answers(#[trigger] s.requests.rows[j], reference, later) by {
        if answers(s.requests.rows[j], reference, later) {
            assert(answers(s.requests.rows[j], reference, now));
        }
    }
}

/// Issuing a challenge leaves no answered challenge active, where none was
/// before: the new challenge is active and not answered.
pub proof fn issue_keeps_verified_inactive(
    s: Datastore,
    employee_id: i32,
    now: i64,
    secret: Seq<char>,
    reference: Seq<char>,
)
    requires
        s.wf(),
        s.requests.has_room(),
        verified_are_inactive(s),
    ensures
        verified_are_inactive(issued(s, employee_id, now, secret, reference)),
{
    let after = issued(s, employee_id, now, secret, reference);
    let fresh = s.requests.next_id();
    assert(!s.requests.rows.contains_key(fresh));
    assert forall|k: i32|
        after.requests.rows.contains_key(k) && (#[trigger] after.requests.rows[k]).verified_utc_dt
            is Some implies after.requests.rows[k].active == Some(false) by {
        if k != fresh {
            assert(s.requests.rows.contains_key(k));
            assert(s.requests.rows[k].verified_utc_dt is Some);
        }
    }
}

/// Answering a challenge leaves no answered challenge active, where none
/// was before: the challenge that is answered stops being active.
pub proof fn check_keeps_verified_inactive(s: Datastore, reference: Seq<char>, now: i64)
    requires
        verified_are_inactive(s),
    ensures
        verified_are_inactive(checked(s, reference, now)),
{
    let after = checked(s, reference, now);
    let answered = challenge_answering(s, reference, now);
    assert forall|k: i32|
        after.requests.rows.contains_key(k) && (#[trigger] after.requests.rows[k]).verified_utc_dt
            is Some implies after.requests.rows[k].active == Some(false) by {
        if k != answered {
            assert(s.requests.rows.contains_key(k));
            assert(s.requests.rows[k].verified_utc_dt is Some);
        }
    }
}

} // verus!
