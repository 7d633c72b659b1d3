//! The library's laws, stated and proved over the models that the
//! executable functions are verified against: acceptance and rejection of
//! tokens, idempotence and serializability of the identity upsert, and slug
//! uniqueness.

use vstd::prelude::*;
use crate::errors::{AuthError, RoomError};
use crate::ids::{RoomId, UserId};
use crate::jwt::{jwt_accepts, jwt_kid};
use crate::models::ClaimsView;
use crate::room::{insert_room_transition, new_room_view};
use crate::store::{
    count_subject, has_slug, has_subject, lemma_count_unique, lemma_subject_index,
    lemma_sync_preserves_wf, lemma_sync_result_subject, subject_index, sync_transition, wf,
    StoreView,
};
use crate::token::{
    bearer_token, claims_complete, claims_of, key_lookup, validate_result, CLOCK_SKEW_SECONDS,
};

verus! {

/// A well-formed, correctly signed token with the expected audience and
/// issuer, expiry in the future and issued-at within the tolerated skew is
/// accepted, and validation returns exactly the claim set the token encodes.
pub proof fn lemma_valid_token_accepted(
    h: Seq<char>,
    audience: Seq<char>,
    issuer_prefix: Seq<char>,
    ks: Seq<(Seq<char>, Seq<u8>)>,
    now: u64,
)
    requires
        bearer_token(h) is Some,
        jwt_kid(bearer_token(h).unwrap()) is Some,
        key_lookup(ks, jwt_kid(bearer_token(h).unwrap()).unwrap()) is Some,
        jwt_accepts(
            bearer_token(h).unwrap(),
            key_lookup(ks, jwt_kid(bearer_token(h).unwrap()).unwrap()).unwrap(),
        ),
        claims_complete(bearer_token(h).unwrap()),
        claims_of(bearer_token(h).unwrap()).audience == audience,
        claims_of(bearer_token(h).unwrap()).issuer == issuer_prefix + audience,
        claims_of(bearer_token(h).unwrap()).expires_at > now,
        claims_of(bearer_token(h).unwrap()).issued_at <= now + CLOCK_SKEW_SECONDS,
    ensures
        validate_result(Option::Some(h), audience, issuer_prefix, ks, now)
            == Result::<ClaimsView, AuthError>::Ok(claims_of(bearer_token(h).unwrap())),
{
}

/// A token whose expiry is not in the future is rejected as expired. Stated
/// for tokens that pass the checks that come before expiry — structure,
/// signature, audience and issuer — since the first failing check names the
/// error: an expired token with, say, an unknown key identifier is reported
/// as a signature failure instead.
pub proof fn lemma_expired_token_rejected(
    h: Seq<char>,
    audience: Seq<char>,
    issuer_prefix: Seq<char>,
    ks: Seq<(Seq<char>, Seq<u8>)>,
    now: u64,
)
    requires
        bearer_token(h) is Some,
        jwt_kid(bearer_token(h).unwrap()) is Some,
        key_lookup(ks, jwt_kid(bearer_token(h).unwrap()).unwrap()) is Some,
        jwt_accepts(
            bearer_token(h).unwrap(),
            key_lookup(ks, jwt_kid(bearer_token(h).unwrap()).unwrap()).unwrap(),
        ),
        claims_complete(bearer_token(h).unwrap()),
        claims_of(bearer_token(h).unwrap()).audience == audience,
        claims_of(bearer_token(h).unwrap()).issuer == issuer_prefix + audience,
        claims_of(bearer_token(h).unwrap()).expires_at <= now,
    ensures
        validate_result(Option::Some(h), audience, issuer_prefix, ks, now)
            == Result::<ClaimsView, AuthError>::Err(AuthError::TokenExpired),
{
}

/// A well-formed, correctly signed token whose audience differs from the
/// configured one is rejected as an audience mismatch — never accepted with
/// a substituted audience — whatever its expiry.
pub proof fn lemma_audience_mismatch_rejected(
    h: Seq<char>,
    audience: Seq<char>,
    issuer_prefix: Seq<char>,
    ks: Seq<(Seq<char>, Seq<u8>)>,
    now: u64,
)
    requires
        bearer_token(h) is Some,
        jwt_kid(bearer_token(h).unwrap()) is Some,
        key_lookup(ks, jwt_kid(bearer_token(h).unwrap()).unwrap()) is Some,
        jwt_accepts(
            bearer_token(h).unwrap(),
            key_lookup(ks, jwt_kid(bearer_token(h).unwrap()).unwrap()).unwrap(),
        ),
        claims_complete(bearer_token(h).unwrap()),
        claims_of(bearer_token(h).unwrap()).audience != audience,
    ensures
        validate_result(Option::Some(h), audience, issuer_prefix, ks, now)
            == Result::<ClaimsView, AuthError>::Err(AuthError::AudienceMismatch),
{
}

/// Synchronizing the same subject twice in sequence, with possibly different
/// profile fields, leaves exactly one stored row for the subject, carrying
/// the second call's profile and the id the first call returned.
pub proof fn lemma_synchronize_idempotent(
    s: StoreView,
    c1: ClaimsView,
    c2: ClaimsView,
    id1: UserId,
    id2: UserId,
    t1: u64,
    t2: u64,
)
    requires
        wf(s),
        c1.subject == c2.subject,
        sync_transition(s, c1, id1, t1).1 is Ok,
    ensures
        ({
            let s1 = sync_transition(s, c1, id1, t1).0;
            let r1 = sync_transition(s, c1, id1, t1).1;
            let s2 = sync_transition(s1, c2, id2, t2).0;
            let r2 = sync_transition(s1, c2, id2, t2).1;
            &&& r2 == r1
            &&& wf(s2)
            &&& count_subject(s2.users, c2.subject) == 1
            &&& s2.users[subject_index(s2.users, c2.subject)].id == r1->Ok_0
            &&& s2.users[subject_index(s2.users, c2.subject)].email == c2.email
            &&& s2.users[subject_index(s2.users, c2.subject)].display_name == c2.display_name
            &&& s2.users[subject_index(s2.users, c2.subject)].avatar_url == c2.avatar_url
            &&& s2.users[subject_index(s2.users, c2.subject)].updated_at == t2
        }),
{
    let sub = c1.subject;
    let s1 = sync_transition(s, c1, id1, t1).0;
    lemma_sync_preserves_wf(s, c1, id1, t1);
    lemma_sync_result_subject(s, c1, id1, t1);
    lemma_subject_index(s1.users, sub);
    lemma_sync_preserves_wf(s1, c2, id2, t2);
    lemma_sync_result_subject(s1, c2, id2, t2);
    let s2 = sync_transition(s1, c2, id2, t2).0;
    lemma_count_unique(s2.users, sub);
}

/// One upsert step for each of a sequence of claim sets: the model of any
/// interleaving of concurrent calls, since each call is a single atomic
/// transition.
pub open spec fn sync_fold(s: StoreView, calls: Seq<(ClaimsView, UserId, u64)>) -> StoreView
    decreases calls.len(),
{
    if calls.len() == 0 {
        s
    } else {
        sync_fold(sync_transition(s, calls[0].0, calls[0].1, calls[0].2).0, calls.skip(1))
    }
}

/// Every upsert sequence preserves well-formedness, whatever its subjects
/// and whether or not each step succeeds.
pub proof fn lemma_sync_fold_wf(s: StoreView, calls: Seq<(ClaimsView, UserId, u64)>)
    requires
        wf(s),
    ensures
        wf(sync_fold(s, calls)),
    decreases calls.len(),
{
    if calls.len() > 0 {
        lemma_sync_preserves_wf(s, calls[0].0, calls[0].1, calls[0].2);
        lemma_sync_fold_wf(
            sync_transition(s, calls[0].0, calls[0].1, calls[0].2).0,
            calls.skip(1),
        );
    }
}

/// No upsert sequence ever duplicates a subject: after any number of calls,
/// in any order, with any outcomes, at most one stored row carries any given
/// subject. This half of the concurrency guarantee needs no hypothesis.
pub proof fn lemma_sync_fold_no_duplicates(
    s: StoreView,
    calls: Seq<(ClaimsView, UserId, u64)>,
    sub: Seq<char>,
)
    requires
        wf(s),
    ensures
        count_subject(sync_fold(s, calls).users, sub) <= 1,
{
    lemma_sync_fold_wf(s, calls);
    lemma_count_unique(sync_fold(s, calls).users, sub);
}

/// Once a subject is stored, any further sequence of upserts for it keeps
/// exactly one row with its id unchanged, and leaves the profile of the
/// last applied call.
pub proof fn lemma_sync_fold_present(
    s: StoreView,
    calls: Seq<(ClaimsView, UserId, u64)>,
    sub: Seq<char>,
)
    requires
        wf(s),
        has_subject(s.users, sub),
        forall|k: int| 0 <= k < calls.len() ==> (#[trigger] calls[k]).0.subject == sub,
    ensures
        wf(sync_fold(s, calls)),
        has_subject(sync_fold(s, calls).users, sub),
        sync_fold(s, calls).users[subject_index(sync_fold(s, calls).users, sub)].id
            == s.users[subject_index(s.users, sub)].id,
        calls.len() > 0 ==> ({
            let u = sync_fold(s, calls).users[subject_index(sync_fold(s, calls).users, sub)];
            &&& u.email == calls.last().0.email
            &&& u.display_name == calls.last().0.display_name
            &&& u.avatar_url == calls.last().0.avatar_url
            &&& u.updated_at == calls.last().2
        }),
    decreases calls.len(),
{
    if calls.len() > 0 {
        let c = calls[0].0;
        let step = sync_transition(s, c, calls[0].1, calls[0].2);
        lemma_subject_index(s.users, sub);
        lemma_sync_preserves_wf(s, c, calls[0].1, calls[0].2);
        lemma_sync_result_subject(s, c, calls[0].1, calls[0].2);
        assert(forall|k: int|
            0 <= k < calls.skip(1).len() ==> (#[trigger] calls.skip(1)[k]) == calls[k + 1]);
        lemma_sync_fold_present(step.0, calls.skip(1), sub);
        if calls.len() > 1 {
            assert(calls.skip(1).last() == calls.last());
        }
    }
}

/// Any number of upserts for one subject, applied in any serial order — the
/// model of concurrent calls — yields exactly one stored row: its id is the
/// one the first call returned, and its profile is the last applied call's,
/// never an interleaved merge. Stated under the one needed hypothesis that
/// the first call succeeds, which fails only where its freshly drawn id
/// already sits in the store: such a draw is a constraint violation that
/// writes nothing, so a run of nothing but colliding draws ends with no row
/// at all. `lemma_sync_fold_no_duplicates` gives the uniqueness half with
/// no hypothesis.
pub proof fn lemma_synchronize_serializable(
    s: StoreView,
    calls: Seq<(ClaimsView, UserId, u64)>,
    sub: Seq<char>,
)
    requires
        wf(s),
        calls.len() > 0,
        forall|k: int| 0 <= k < calls.len() ==> (#[trigger] calls[k]).0.subject == sub,
        sync_transition(s, calls[0].0, calls[0].1, calls[0].2).1 is Ok,
    ensures
        wf(sync_fold(s, calls)),
        count_subject(sync_fold(s, calls).users, sub) == 1,
        ({
            let u = sync_fold(s, calls).users[subject_index(sync_fold(s, calls).users, sub)];
            &&& u.id == sync_transition(s, calls[0].0, calls[0].1, calls[0].2).1->Ok_0
            &&& u.email == calls.last().0.email
            &&& u.display_name == calls.last().0.display_name
            &&& u.avatar_url == calls.last().0.avatar_url
            &&& u.updated_at == calls.last().2
        }),
{
    let step = sync_transition(s, calls[0].0, calls[0].1, calls[0].2);
    lemma_sync_preserves_wf(s, calls[0].0, calls[0].1, calls[0].2);
    lemma_sync_result_subject(s, calls[0].0, calls[0].1, calls[0].2);
    assert(forall|k: int|
        0 <= k < calls.skip(1).len() ==> (#[trigger] calls.skip(1)[k]) == calls[k + 1]);
    lemma_sync_fold_present(step.0, calls.skip(1), sub);
    if calls.len() > 1 {
        assert(calls.skip(1).last() == calls.last());
    }
    lemma_count_unique(sync_fold(s, calls).users, sub);
}

/// Creating two rooms with the same explicit slug: the first insert
/// succeeds, and the second fails with `SlugTaken` and writes nothing.
pub proof fn lemma_explicit_slug_conflict(
    s: StoreView,
    id1: RoomId,
    id2: RoomId,
    slug: Seq<char>,
    name1: Seq<char>,
    name2: Seq<char>,
    owner1: UserId,
    owner2: UserId,
    t1: u64,
    t2: u64,
)
    requires
        insert_room_transition(s, id1, slug, name1, owner1, t1).1 is Ok,
    ensures
        ({
            let s1 = insert_room_transition(s, id1, slug, name1, owner1, t1).0;
            &&& insert_room_transition(s1, id2, slug, name2, owner2, t2).1
                == Result::<crate::models::RoomView, RoomError>::Err(RoomError::SlugTaken)
            &&& insert_room_transition(s1, id2, slug, name2, owner2, t2).0 == s1
        }),
{
    let s1 = insert_room_transition(s, id1, slug, name1, owner1, t1).0;
    assert(s1.rooms[s.rooms.len() as int] == new_room_view(id1, slug, name1, owner1, t1));
    assert(s1.rooms[s.rooms.len() as int].slug == slug);
    assert(has_slug(s1.rooms, slug));
}

} // verus!
