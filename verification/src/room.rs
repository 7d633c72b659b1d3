//! Room creation: slug rules, slug generation, and the insert transition.
//!
//! A room's slug is URL-safe and globally unique. A caller-requested slug is
//! used verbatim and a collision fails at once; an omitted slug is generated
//! as eight lowercase alphanumeric characters, with a bounded number of
//! retries on collision.

use vstd::prelude::*;
use crate::errors::{RoomError, StorageError};
use crate::ids::{fresh_random_bits, RoomId, UserId};
use crate::models::{Room, RoomView};
use crate::store::{
    has_room_id, has_slug, has_user_id, wf, Store, StoreView,
};
use crate::strutil::str_eq;

verus! {

/// How many generated slugs are tried before creation gives up.
pub const SLUG_ATTEMPTS: usize = 5;

/// Characters a generated slug draws from: lowercase ASCII letters and
/// digits.
pub open spec fn generated_slug_char(c: char) -> bool {
    (97 <= c as u32 && c as u32 <= 122) || (48 <= c as u32 && c as u32 <= 57)
}

/// Characters allowed in any slug: lowercase ASCII letters, digits, hyphen
/// and underscore.
pub open spec fn slug_char(c: char) -> bool {
    generated_slug_char(c) || c as u32 == 45 || c as u32 == 95
}

/// A well-formed slug: non-empty, at most 64 characters, URL-safe.
pub open spec fn valid_slug(s: Seq<char>) -> bool {
    1 <= s.len() <= 64 && forall|i: int| 0 <= i < s.len() ==> slug_char(#[trigger] s[i])
}

/// The shape of an auto-generated slug: exactly eight lowercase
/// alphanumeric characters.
pub open spec fn generated_slug(s: Seq<char>) -> bool {
    s.len() == 8 && forall|i: int| 0 <= i < s.len() ==> generated_slug_char(#[trigger] s[i])
}

/// The character standing for one base-36 digit: `a` to `z` for 0 to 25,
/// `0` to `9` for 26 to 35.
pub open spec fn slug_digit_char(d: u8) -> char {
    if d < 26 {
        ((97 + d) as u8) as char
    } else {
        ((48 + (d - 26)) as u8) as char
    }
}

/// The `n`-character slug encoding of `bits`: base-36 digits over the slug
/// alphabet, least significant first.
pub open spec fn slug_of(bits: nat, n: nat) -> Seq<char>
    decreases n,
{
    if n == 0 {
        Seq::empty()
    } else {
        seq![slug_digit_char((bits % 36) as u8)] + slug_of(bits / 36, (n - 1) as nat)
    }
}

/// Whether a string is a well-formed slug.
pub fn check_slug(s: &str) -> (r: bool)
    ensures
        r == valid_slug(s@),
{
    let n = s.unicode_len();
    if n < 1 || n > 64 {
        return false;
    }
    let mut i: usize = 0;
    while i < n
        invariant
            i <= n,
            n == s@.len(),
            1 <= n <= 64,
            forall|j: int| 0 <= j < i ==> slug_char(#[trigger] s@[j]),
        decreases n - i,
    {
        let c = s.get_char(i);
        let u = c as u32;
        let ok = (97 <= u && u <= 122) || (48 <= u && u <= 57) || u == 45 || u == 95;
        if !ok {
            return false;
        }
        i += 1;
    }
    true
}

/// Every slug digit maps to a lowercase alphanumeric character.
pub proof fn lemma_slug_digit_char(d: u8)
    requires
        d < 36,
    ensures
        generated_slug_char(slug_digit_char(d)),
{
}

/// A base-36 slug encoding has the generated-slug shape: `n` characters,
/// all lowercase alphanumeric.
pub proof fn lemma_slug_of_shape(bits: nat, n: nat)
    ensures
        slug_of(bits, n).len() == n,
        forall|i: int| 0 <= i < n ==> generated_slug_char(#[trigger] slug_of(bits, n)[i]),
    decreases n,
{
    if n > 0 {
        lemma_slug_digit_char((bits % 36) as u8);
        lemma_slug_of_shape(bits / 36, (n - 1) as nat);
    }
}

/// Generated slugs satisfy the general slug constraint.
pub proof fn lemma_generated_slug_valid(s: Seq<char>)
    requires
        generated_slug(s),
    ensures
        valid_slug(s),
{
}

/// The eight-character slug encoding of the given bits.
pub fn slug_from_bits(bits: u128) -> (r: String)
    ensures
        r@ == slug_of(bits as nat, 8),
        generated_slug(r@),
{
    let mut out = String::new();
    let mut b = bits;
    let mut k: usize = 0;
    while k < 8
        invariant
            k <= 8,
            out@.len() == k,
            out@ + slug_of(b as nat, (8 - k) as nat) == slug_of(bits as nat, 8),
        decreases 8 - k,
    {
        let ghost pre_out = out@;
        let ghost pre_b = b as nat;
        let d = (b % 36) as u8;
        let cb: u8 = if d < 26 {
            97 + d
        } else {
            48 + (d - 26)
        };
        crate::strutil::push_char(&mut out, cb as char);
        b = b / 36;
        k += 1;
        proof {
            assert(cb as char == slug_digit_char((pre_b % 36) as u8));
            assert(slug_of(pre_b, (9 - k) as nat) == seq![slug_digit_char((pre_b % 36) as u8)]
                + slug_of(pre_b / 36, (8 - k) as nat));
            assert(out@ + slug_of(b as nat, (8 - k) as nat) =~= pre_out + slug_of(
                pre_b,
                (9 - k) as nat,
            ));
        }
    }
    proof {
        assert(out@ + slug_of(b as nat, 0) =~= out@);
        lemma_slug_of_shape(bits as nat, 8);
    }
    out
}

/// The room row an insert creates.
pub open spec fn new_room_view(
    id: RoomId,
    slug: Seq<char>,
    name: Seq<char>,
    owner: UserId,
    now: u64,
) -> RoomView {
    RoomView { id, slug, name, owner_id: owner, created_at: now, updated_at: now }
}

/// The atomic room insert: a single write that fails on a taken slug, a
/// missing owner (foreign-key violation), or a taken room id, and otherwise
/// appends exactly one row.
pub open spec fn insert_room_transition(
    s: StoreView,
    id: RoomId,
    slug: Seq<char>,
    name: Seq<char>,
    owner: UserId,
    now: u64,
) -> (StoreView, Result<RoomView, RoomError>) {
    if has_slug(s.rooms, slug) {
        (s, Result::Err(RoomError::SlugTaken))
    } else if !has_user_id(s.users, owner) {
        (s, Result::Err(RoomError::Storage(StorageError::ConstraintViolation)))
    } else if has_room_id(s.rooms, id) {
        (s, Result::Err(RoomError::Storage(StorageError::ConstraintViolation)))
    } else {
        (
            StoreView {
                users: s.users,
                rooms: s.rooms.push(new_room_view(id, slug, name, owner, now)),
            },
            Result::Ok(new_room_view(id, slug, name, owner, now)),
        )
    }
}

/// Room creation with a slug the caller requested verbatim: a slug that is
/// not URL-safe is rejected before anything is written.
pub open spec fn create_requested_transition(
    s: StoreView,
    id: RoomId,
    slug: Seq<char>,
    name: Seq<char>,
    owner: UserId,
    now: u64,
) -> (StoreView, Result<RoomView, RoomError>) {
    if !valid_slug(slug) {
        (s, Result::Err(RoomError::InvalidSlug))
    } else {
        insert_room_transition(s, id, slug, name, owner, now)
    }
}

/// The view of a room-creation result.
pub open spec fn room_result_view(r: Result<Room, RoomError>) -> Result<RoomView, RoomError> {
    match r {
        Result::Ok(room) => Result::Ok(room@),
        Result::Err(e) => Result::Err(e),
    }
}

/// The room insert preserves well-formedness.
pub proof fn lemma_insert_preserves_wf(
    s: StoreView,
    id: RoomId,
    slug: Seq<char>,
    name: Seq<char>,
    owner: UserId,
    now: u64,
)
    requires
        wf(s),
        valid_slug(slug),
    ensures
        wf(insert_room_transition(s, id, slug, name, owner, now).0),
{
    let post = insert_room_transition(s, id, slug, name, owner, now).0;
    if has_user_id(s.users, owner) && !has_slug(s.rooms, slug) && !has_room_id(s.rooms, id) {
        assert(forall|i: int| 0 <= i < s.rooms.len() ==> (#[trigger] post.rooms[i]) == s.rooms[i]);
        assert(post.rooms[s.rooms.len() as int] == new_room_view(id, slug, name, owner, now));
    }
}

impl Store {
    /// Whether a room row with this id exists.
    pub fn contains_room_id(&self, id: RoomId) -> (r: bool)
        ensures
            r == has_room_id(self@.rooms, id),
    {
        let mut i: usize = 0;
        while i < self.rooms.len()
            invariant
                i <= self.rooms.len(),
                self@.rooms.len() == self.rooms@.len(),
                forall|j: int| 0 <= j < i ==> (#[trigger] self@.rooms[j]).id != id,
            decreases self.rooms.len() - i,
        {
            if self.rooms[i].id == id {
                proof {
                    assert(self@.rooms[i as int].id == id);
                }
                return true;
            }
            i += 1;
        }
        false
    }

    /// Whether a room row with this slug exists.
    pub fn contains_slug(&self, slug: &str) -> (r: bool)
        ensures
            r == has_slug(self@.rooms, slug@),
    {
        let mut i: usize = 0;
        while i < self.rooms.len()
            invariant
                i <= self.rooms.len(),
                self@.rooms.len() == self.rooms@.len(),
                forall|j: int| 0 <= j < i ==> (#[trigger] self@.rooms[j]).slug != slug@,
            decreases self.rooms.len() - i,
        {
            let found = str_eq(self.rooms[i].slug.as_str(), slug);
            if found {
                proof {
                    assert(self@.rooms[i as int].slug == slug@);
                }
                return true;
            }
            i += 1;
        }
        false
    }

    /// The atomic room insert with a caller-chosen id: behaves exactly as
    /// `insert_room_transition` says, and hands back a copy of the row it
    /// appended.
    pub fn insert_room_with_id(
        &mut self,
        id: RoomId,
        slug: String,
        name: &str,
        owner: UserId,
        now: u64,
    ) -> (r: Result<Room, RoomError>)
        requires
            wf(old(self)@),
            valid_slug(slug@),
        ensures
            final(self)@ == insert_room_transition(old(self)@, id, slug@, name@, owner, now).0,
            room_result_view(r) == insert_room_transition(old(self)@, id, slug@, name@, owner, now).1,
            wf(final(self)@),
    {
        proof {
            lemma_insert_preserves_wf(old(self)@, id, slug@, name@, owner, now);
        }
        let ghost sv = slug@;
        if self.contains_slug(slug.as_str()) {
            return Err(RoomError::SlugTaken);
        }
        if !self.contains_user_id(owner) {
            return Err(RoomError::Storage(StorageError::ConstraintViolation));
        }
        if self.contains_room_id(id) {
            return Err(RoomError::Storage(StorageError::ConstraintViolation));
        }
        let ghost pre = self@;
        let row = Room {
            id,
            slug,
            name: name.to_owned(),
            owner_id: owner,
            created_at: now,
            updated_at: now,
        };
        let created = row.duplicate();
        self.rooms.push(row);
        proof {
            assert(self@.rooms =~= pre.rooms.push(new_room_view(id, sv, name@, owner, now)));
            assert(self@.users =~= pre.users);
        }
        Ok(created)
    }

    /// Creates a room owned by an already-synchronized user. A requested
    /// slug is used verbatim: it must be URL-safe, and a collision fails at
    /// once with `SlugTaken`, never silently replacing the caller's choice.
    /// An omitted slug is generated as eight lowercase alphanumeric
    /// characters, retrying a bounded number of times on collision before
    /// `SlugExhausted`. Nothing is written on any failure, and with an
    /// existing owner and an empty room table nothing can collide, so
    /// success is owed there.
    pub fn create_room(
        &mut self,
        owner: UserId,
        name: &str,
        requested_slug: Option<&str>,
        now: u64,
    ) -> (r: Result<Room, RoomError>)
        requires
            wf(old(self)@),
        ensures
            wf(final(self)@),
            r is Err ==> final(self)@ == old(self)@,
            requested_slug is Some ==> exists|id: RoomId|
                #![auto]
                final(self)@ == create_requested_transition(
                    old(self)@,
                    id,
                    requested_slug.unwrap()@,
                    name@,
                    owner,
                    now,
                ).0 && room_result_view(r) == create_requested_transition(
                    old(self)@,
                    id,
                    requested_slug.unwrap()@,
                    name@,
                    owner,
                    now,
                ).1,
            requested_slug is Some && !valid_slug(requested_slug.unwrap()@) ==> r
                == Result::<Room, RoomError>::Err(RoomError::InvalidSlug),
            requested_slug is Some && valid_slug(requested_slug.unwrap()@) && has_slug(
                old(self)@.rooms,
                requested_slug.unwrap()@,
            ) ==> r == Result::<Room, RoomError>::Err(RoomError::SlugTaken),
            requested_slug is Some && r is Ok ==> {
                let room = r->Ok_0@;
                &&& room.slug == requested_slug.unwrap()@
                &&& room.name == name@
                &&& room.owner_id == owner
                &&& room.created_at == now
                &&& room.updated_at == now
                &&& final(self)@.users == old(self)@.users
                &&& final(self)@.rooms =~= old(self)@.rooms.push(room)
            },
            requested_slug is None ==> r != Result::<Room, RoomError>::Err(RoomError::SlugTaken)
                && r != Result::<Room, RoomError>::Err(RoomError::InvalidSlug),
            requested_slug is None && !has_user_id(old(self)@.users, owner) ==> r
                == Result::<Room, RoomError>::Err(RoomError::Storage(StorageError::ConstraintViolation)),
            requested_slug is None && has_user_id(old(self)@.users, owner) && old(self)@.rooms.len()
                == 0 ==> r is Ok,
            requested_slug is None && r is Ok ==> {
                let room = r->Ok_0@;
                &&& generated_slug(room.slug)
                &&& !has_slug(old(self)@.rooms, room.slug)
                &&& room.name == name@
                &&& room.owner_id == owner
                &&& room.created_at == now
                &&& room.updated_at == now
                &&& final(self)@.users == old(self)@.users
                &&& final(self)@.rooms =~= old(self)@.rooms.push(room)
            },
    {
        match requested_slug {
            Some(s) => {
                if !check_slug(s) {
                    proof {
                        let ghost wid = RoomId(0);
                        assert(room_result_view(Result::<Room, RoomError>::Err(RoomError::InvalidSlug))
                            == create_requested_transition(self@, wid, s@, name@, owner, now).1);
                    }
                    return Err(RoomError::InvalidSlug);
                }
                let ghost pre = self@;
                let id = RoomId::fresh();
                let r = self.insert_room_with_id(id, s.to_owned(), name, owner, now);
                proof {
                    assert(self@ == create_requested_transition(pre, id, s@, name@, owner, now).0
                        && room_result_view(r) == create_requested_transition(
                        pre,
                        id,
                        s@,
                        name@,
                        owner,
                        now,
                    ).1);
                }
                r
            },
            None => {
                if !self.contains_user_id(owner) {
                    return Err(RoomError::Storage(StorageError::ConstraintViolation));
                }
                let mut attempts: usize = 0;
                while attempts < SLUG_ATTEMPTS
                    invariant
                        requested_slug is None,
                        self@ == old(self)@,
                        wf(self@),
                        has_user_id(self@.users, owner),
                        old(self)@.rooms.len() == 0 ==> attempts == 0,
                    decreases SLUG_ATTEMPTS - attempts,
                {
                    let bits = fresh_random_bits();
                    let slug = slug_from_bits(bits);
                    let taken = self.contains_slug(slug.as_str());
                    if !taken {
                        proof {
                            lemma_generated_slug_valid(slug@);
                        }
                        let ghost sv = slug@;
                        let id = RoomId::fresh();
                        let r = self.insert_room_with_id(id, slug, name, owner, now);
                        proof {
                            if r is Ok {
                                assert(r->Ok_0@ == new_room_view(id, sv, name@, owner, now));
                            }
                        }
                        return r;
                    }
                    attempts += 1;
                }
                Err(RoomError::SlugExhausted)
            },
        }
    }
}

} // verus!
