//! The request flows behind the HTTP surface: authenticate the caller, then
//! read the profile or create a room. Routing, I/O and response encoding are
//! a caller's concern; these functions compute status codes and values from
//! plain inputs, and leak nothing about why authentication failed beyond the
//! status itself.

use vstd::prelude::*;
use crate::ids::UserId;
use crate::models::{opt_str_view, CreateRoomRequest, Room};
use crate::room::{create_requested_transition, generated_slug, room_result_view, valid_slug};
use crate::store::{
    has_room_id, has_slug, has_subject, has_user_id, lemma_subject_index,
    lemma_sync_result_subject, subject_index, sync_transition, wf, Store,
};
use crate::token::{opt_header_view, validate, validate_result, KeySet};

verus! {

/// The profile endpoint: on a valid token, the caller's subject and email;
/// on any authentication failure, status 401 and nothing else.
pub fn handle_me(
    raw_header: Option<&str>,
    expected_audience: &str,
    expected_issuer_prefix: &str,
    keys: &KeySet,
    now: u64,
) -> (r: Result<(String, Option<String>), u16>)
    ensures
        r is Ok <==> validate_result(
            opt_header_view(raw_header),
            expected_audience@,
            expected_issuer_prefix@,
            keys@,
            now,
        ) is Ok,
        r is Ok ==> {
            let c = validate_result(
                opt_header_view(raw_header),
                expected_audience@,
                expected_issuer_prefix@,
                keys@,
                now,
            )->Ok_0;
            r->Ok_0.0@ == c.subject && opt_str_view(r->Ok_0.1) == c.email
        },
        r is Err ==> r->Err_0 == 401u16,
{
    match validate(raw_header, expected_audience, expected_issuer_prefix, keys, now) {
        Ok(claims) => Ok((claims.subject, claims.email)),
        Err(e) => Err(e.http_status()),
    }
}

/// The room-creation endpoint: validate the token, synchronize the caller's
/// identity, then create the room under the synchronized user id. On an
/// authentication failure the store is untouched and the status is 401, and
/// 401 arises from nothing else; on any failure no room row is written; on
/// success exactly the created room is appended, owned by the row stored
/// for the token's subject. On an empty store a valid token with a valid or
/// absent requested slug cannot collide with anything, so success is owed
/// there.
pub fn handle_create_room(
    store: &mut Store,
    raw_header: Option<&str>,
    expected_audience: &str,
    expected_issuer_prefix: &str,
    keys: &KeySet,
    request: &CreateRoomRequest,
    now: u64,
) -> (r: Result<Room, u16>)
    requires
        wf(old(store)@),
    ensures
        wf(final(store)@),
        validate_result(
            opt_header_view(raw_header),
            expected_audience@,
            expected_issuer_prefix@,
            keys@,
            now,
        ) is Err ==> r == Result::<Room, u16>::Err(401u16) && final(store)@ == old(store)@,
        r is Err ==> final(store)@.rooms == old(store)@.rooms,
        r is Err ==> r->Err_0 == 401u16 || r->Err_0 == 400u16 || r->Err_0 == 409u16 || r->Err_0
            == 500u16,
        r is Err && r->Err_0 == 401u16 ==> validate_result(
            opt_header_view(raw_header),
            expected_audience@,
            expected_issuer_prefix@,
            keys@,
            now,
        ) is Err,
        ({
            let v = validate_result(
                opt_header_view(raw_header),
                expected_audience@,
                expected_issuer_prefix@,
                keys@,
                now,
            );
            &&& v is Ok
            &&& (old(store)@.users.len() == 0 || has_subject(old(store)@.users, v->Ok_0.subject))
            &&& old(store)@.rooms.len() == 0
            &&& (request.slug is None || valid_slug(request.slug.unwrap()@))
        }) ==> r is Ok,
        r is Ok ==> {
            let c = validate_result(
                opt_header_view(raw_header),
                expected_audience@,
                expected_issuer_prefix@,
                keys@,
                now,
            )->Ok_0;
            let room = r->Ok_0@;
            &&& validate_result(
                opt_header_view(raw_header),
                expected_audience@,
                expected_issuer_prefix@,
                keys@,
                now,
            ) is Ok
            &&& has_subject(final(store)@.users, c.subject)
            &&& room.owner_id == final(store)@.users[subject_index(
                final(store)@.users,
                c.subject,
            )].id
            &&& final(store)@.rooms =~= old(store)@.rooms.push(room)
            &&& room.name == request.name@
            &&& (request.slug is Some ==> room.slug == request.slug.unwrap()@)
            &&& (request.slug is None ==> generated_slug(room.slug) && !has_slug(
                old(store)@.rooms,
                room.slug,
            ))
            &&& room.created_at == now
            &&& room.updated_at == now
        },
{
    let ghost pre = store@;
    let claims = match validate(raw_header, expected_audience, expected_issuer_prefix, keys, now) {
        Ok(c) => c,
        Err(e) => {
            return Err(e.http_status());
        },
    };
    let sync_res = store.synchronize(&claims, now);
    let owner: UserId = match sync_res {
        Ok(u) => u,
        Err(_) => {
            proof {
                let ghost wid = choose|id: UserId|
                    #![auto]
                    store@ == sync_transition(pre, claims@, id, now).0 && sync_res
                        == sync_transition(pre, claims@, id, now).1;
                assert(store@ == pre);
                if pre.users.len() == 0 {
                    assert(subject_index(pre.users, claims@.subject) == -1);
                    assert(!has_user_id(pre.users, wid));
                    assert(false);
                }
            }
            return Err(500);
        },
    };
    let ghost mid = store@;
    proof {
        let ghost wid = choose|id: UserId|
            #![auto]
            store@ == sync_transition(pre, claims@, id, now).0 && sync_res == sync_transition(
                pre,
                claims@,
                id,
                now,
            ).1;
        lemma_sync_result_subject(pre, claims@, wid, now);
        lemma_subject_index(mid.users, claims@.subject);
        assert(mid.rooms == pre.rooms);
        assert(has_subject(mid.users, claims@.subject));
        assert(mid.users[subject_index(mid.users, claims@.subject)].id == owner);
        assert(has_user_id(mid.users, owner));
    }
    let requested: Option<&str> = match &request.slug {
        Some(s) => Some(s.as_str()),
        None => None,
    };
    let result = store.create_room(owner, request.name.as_str(), requested, now);
    match result {
        Ok(room) => {
            proof {
                if request.slug is Some {
                    let ghost rid = choose|id: crate::ids::RoomId|
                        #![auto]
                        store@ == create_requested_transition(
                            mid,
                            id,
                            request.slug.unwrap()@,
                            request.name@,
                            owner,
                            now,
                        ).0 && room_result_view(Result::<Room, crate::errors::RoomError>::Ok(room))
                            == create_requested_transition(
                            mid,
                            id,
                            request.slug.unwrap()@,
                            request.name@,
                            owner,
                            now,
                        ).1;
                }
                assert(store@.users == mid.users);
                assert(store@.rooms =~= pre.rooms.push(room@));
            }
            Ok(room)
        },
        Err(e) => {
            proof {
                if request.slug is Some {
                    let ghost rid = choose|id: crate::ids::RoomId|
                        #![auto]
                        store@ == create_requested_transition(
                            mid,
                            id,
                            request.slug.unwrap()@,
                            request.name@,
                            owner,
                            now,
                        ).0 && room_result_view(Result::<Room, crate::errors::RoomError>::Err(e))
                            == create_requested_transition(
                            mid,
                            id,
                            request.slug.unwrap()@,
                            request.name@,
                            owner,
                            now,
                        ).1;
                    if mid.rooms.len() == 0 && valid_slug(request.slug.unwrap()@) {
                        assert(!has_slug(mid.rooms, request.slug.unwrap()@));
                        assert(!has_room_id(mid.rooms, rid));
                        assert(false);
                    }
                }
            }
            Err(e.http_status())
        },
    }
}

} // verus!
