//! The identity and room store, and the race-safe identity upsert.
//!
//! The store is modelled as the sequences of its user and room rows, with a
//! well-formedness invariant: subjects, user ids, slugs and room ids are
//! unique, and every room's owner references an existing user. Each mutating
//! operation is one atomic transition on that model, stated by a spec
//! function and proved of the executable code, so any interleaving of
//! concurrent calls is a sequence of these transitions.

use vstd::prelude::*;
use crate::errors::StorageError;
use crate::ids::{RoomId, UserId};
use crate::models::{Claims, ClaimsView, Room, RoomView, User, UserView};
use crate::room::valid_slug;
use crate::strutil::{clone_opt_str, str_eq};

verus! {

/// Mathematical model of the store: its user rows and room rows, in
/// insertion order.
pub ghost struct StoreView {
    pub users: Seq<UserView>,
    pub rooms: Seq<RoomView>,
}

/// The identity and room store. All access goes through the verified
/// operations below; each is a single atomic transition on the model.
pub struct Store {
    pub users: Vec<User>,
    pub rooms: Vec<Room>,
}

impl View for Store {
    type V = StoreView;

    open spec fn view(&self) -> StoreView {
        StoreView {
            users: Seq::new(self.users@.len(), |i: int| self.users@[i]@),
            rooms: Seq::new(self.rooms@.len(), |i: int| self.rooms@[i]@),
        }
    }
}

/// The position of the first user row with the given subject, or -1.
pub open spec fn subject_index(users: Seq<UserView>, sub: Seq<char>) -> int
    decreases users.len(),
{
    if users.len() == 0 {
        -1
    } else if users[0].subject == sub {
        0
    } else if subject_index(users.skip(1), sub) == -1 {
        -1
    } else {
        subject_index(users.skip(1), sub) + 1
    }
}

/// Whether some user row carries the given subject.
pub open spec fn has_subject(users: Seq<UserView>, sub: Seq<char>) -> bool {
    subject_index(users, sub) >= 0
}

/// Whether some user row carries the given id.
pub open spec fn has_user_id(users: Seq<UserView>, id: UserId) -> bool {
    exists|j: int| 0 <= j < users.len() && #[trigger] users[j].id == id
}

/// Whether some room row carries the given id.
pub open spec fn has_room_id(rooms: Seq<RoomView>, id: RoomId) -> bool {
    exists|j: int| 0 <= j < rooms.len() && #[trigger] rooms[j].id == id
}

/// Whether some room row carries the given slug.
pub open spec fn has_slug(rooms: Seq<RoomView>, slug: Seq<char>) -> bool {
    exists|j: int| 0 <= j < rooms.len() && #[trigger] rooms[j].slug == slug
}

/// How many user rows carry the given subject.
pub open spec fn count_subject(users: Seq<UserView>, sub: Seq<char>) -> nat
    decreases users.len(),
{
    if users.len() == 0 {
        0
    } else {
        count_subject(users.skip(1), sub) + if users[0].subject == sub {
            1nat
        } else {
            0nat
        }
    }
}

/// Well-formedness of the store: at most one row per subject, per user id,
/// per slug and per room id, every room owned by an existing user, and every
/// stored slug URL-safe.
pub open spec fn wf(s: StoreView) -> bool {
    &&& forall|i: int, j: int|
        #![trigger s.users[i], s.users[j]]
        0 <= i < j < s.users.len() ==> s.users[i].subject != s.users[j].subject && s.users[i].id
            != s.users[j].id
    &&& forall|i: int, j: int|
        #![trigger s.rooms[i], s.rooms[j]]
        0 <= i < j < s.rooms.len() ==> s.rooms[i].slug != s.rooms[j].slug && s.rooms[i].id
            != s.rooms[j].id
    &&& forall|i: int|
        #![trigger s.rooms[i]]
        0 <= i < s.rooms.len() ==> has_user_id(s.users, s.rooms[i].owner_id) && valid_slug(
            s.rooms[i].slug,
        )
}

/// An existing row refreshed by a later authentication: profile fields and
/// `updated_at` take the new claims' values; id, subject and `created_at`
/// are preserved.
pub open spec fn refreshed_user(u: UserView, c: ClaimsView, now: u64) -> UserView {
    UserView {
        id: u.id,
        subject: u.subject,
        email: c.email,
        display_name: c.display_name,
        avatar_url: c.avatar_url,
        created_at: u.created_at,
        updated_at: now,
    }
}

/// The row a first authentication inserts.
pub open spec fn inserted_user(id: UserId, c: ClaimsView, now: u64) -> UserView {
    UserView {
        id,
        subject: c.subject,
        email: c.email,
        display_name: c.display_name,
        avatar_url: c.avatar_url,
        created_at: now,
        updated_at: now,
    }
}

/// The atomic upsert: one conditional insert-or-update keyed by the subject.
/// An existing row keeps its id and takes the new profile; otherwise a row
/// with the given fresh id is inserted, unless that id is already taken, in
/// which case the store is unchanged and the write is a constraint
/// violation. The subject's user id is returned in both successful cases.
pub open spec fn sync_transition(s: StoreView, c: ClaimsView, id: UserId, now: u64) -> (
    StoreView,
    Result<UserId, StorageError>,
) {
    let i = subject_index(s.users, c.subject);
    if i >= 0 {
        (
            StoreView { users: s.users.update(i, refreshed_user(s.users[i], c, now)), rooms: s.rooms },
            Result::Ok(s.users[i].id),
        )
    } else if has_user_id(s.users, id) {
        (s, Result::Err(StorageError::ConstraintViolation))
    } else {
        (
            StoreView { users: s.users.push(inserted_user(id, c, now)), rooms: s.rooms },
            Result::Ok(id),
        )
    }
}

/// Where `subject_index` points and what stands before it: a non-negative
/// index is the first row with the subject, and -1 means there is none.
pub proof fn lemma_subject_index(users: Seq<UserView>, sub: Seq<char>)
    ensures
        subject_index(users, sub) == -1 || 0 <= subject_index(users, sub) < users.len(),
        subject_index(users, sub) == -1 ==> forall|j: int|
            0 <= j < users.len() ==> (#[trigger] users[j]).subject != sub,
        subject_index(users, sub) >= 0 ==> users[subject_index(users, sub)].subject == sub,
        subject_index(users, sub) >= 0 ==> forall|j: int|
            0 <= j < subject_index(users, sub) ==> (#[trigger] users[j]).subject != sub,
    decreases users.len(),
{
    if users.len() == 0 {
    } else if users[0].subject == sub {
    } else {
        lemma_subject_index(users.skip(1), sub);
        assert(forall|j: int|
            1 <= j < users.len() ==> (#[trigger] users[j]) == users.skip(1)[j - 1]);
    }
}

/// `subject_index` finds exactly the first occurrence: an index whose row
/// carries the subject, with no earlier such row, is the one returned.
pub proof fn lemma_subject_index_first(users: Seq<UserView>, sub: Seq<char>, i: int)
    requires
        0 <= i < users.len(),
        users[i].subject == sub,
        forall|j: int| 0 <= j < i ==> (#[trigger] users[j]).subject != sub,
    ensures
        subject_index(users, sub) == i,
    decreases users.len(),
{
    if i == 0 {
    } else {
        assert(forall|j: int|
            0 <= j < users.skip(1).len() ==> (#[trigger] users.skip(1)[j]) == users[j + 1]);
        lemma_subject_index_first(users.skip(1), sub, i - 1);
    }
}

/// Where subjects are pairwise distinct, a subject occurs once or not at
/// all.
pub proof fn lemma_count_unique(users: Seq<UserView>, sub: Seq<char>)
    requires
        forall|i: int, j: int|
            #![trigger users[i], users[j]]
            0 <= i < j < users.len() ==> users[i].subject != users[j].subject,
    ensures
        count_subject(users, sub) == if has_subject(users, sub) {
            1nat
        } else {
            0nat
        },
    decreases users.len(),
{
    if users.len() == 0 {
    } else {
        let tail = users.skip(1);
        assert(forall|j: int| 0 <= j < tail.len() ==> (#[trigger] tail[j]) == users[j + 1]);
        lemma_count_unique(tail, sub);
        lemma_subject_index(users, sub);
        lemma_subject_index(tail, sub);
        if users[0].subject == sub {
            if has_subject(tail, sub) {
                let k = subject_index(tail, sub);
                assert(tail[k].subject == sub);
                assert(users[k + 1].subject == sub);
                assert(false);
            }
        }
    }
}

/// A successful upsert leaves the subject stored, under the returned id.
pub proof fn lemma_sync_result_subject(s: StoreView, c: ClaimsView, id: UserId, now: u64)
    requires
        wf(s),
        sync_transition(s, c, id, now).1 is Ok,
    ensures
        ({
            let post = sync_transition(s, c, id, now).0;
            let uid = sync_transition(s, c, id, now).1->Ok_0;
            &&& has_subject(post.users, c.subject)
            &&& post.users[subject_index(post.users, c.subject)].id == uid
            &&& post.users[subject_index(post.users, c.subject)].email == c.email
            &&& post.users[subject_index(post.users, c.subject)].display_name == c.display_name
            &&& post.users[subject_index(post.users, c.subject)].avatar_url == c.avatar_url
            &&& post.users[subject_index(post.users, c.subject)].updated_at == now
        }),
{
    lemma_subject_index(s.users, c.subject);
    let i = subject_index(s.users, c.subject);
    let post = sync_transition(s, c, id, now).0;
    if i >= 0 {
        assert(forall|j: int| 0 <= j < i ==> (#[trigger] post.users[j]) == s.users[j]);
        lemma_subject_index_first(post.users, c.subject, i);
    } else {
        let n = s.users.len() as int;
        assert(forall|j: int| 0 <= j < n ==> (#[trigger] post.users[j]) == s.users[j]);
        assert(post.users[n].subject == c.subject);
        lemma_subject_index_first(post.users, c.subject, n);
    }
}

/// The upsert preserves well-formedness.
pub proof fn lemma_sync_preserves_wf(s: StoreView, c: ClaimsView, id: UserId, now: u64)
    requires
        wf(s),
    ensures
        wf(sync_transition(s, c, id, now).0),
{
    lemma_subject_index(s.users, c.subject);
    let i = subject_index(s.users, c.subject);
    let post = sync_transition(s, c, id, now).0;
    if i >= 0 {
        assert(forall|k: int|
            0 <= k < post.users.len() ==> (#[trigger] post.users[k]).id == s.users[k].id
                && post.users[k].subject == s.users[k].subject);
        assert(forall|r: int|
            0 <= r < post.rooms.len() ==> has_user_id(post.users, (#[trigger] post.rooms[r]).owner_id))
            by {
            assert forall|r: int|
                0 <= r < post.rooms.len() implies has_user_id(
                post.users,
                (#[trigger] post.rooms[r]).owner_id,
            ) by {
                let j = choose|j: int|
                    0 <= j < s.users.len() && #[trigger] s.users[j].id == s.rooms[r].owner_id;
                assert(post.users[j].id == s.rooms[r].owner_id);
            }
        }
    } else if has_user_id(s.users, id) {
    } else {
        assert(forall|k: int|
            0 <= k < s.users.len() ==> (#[trigger] post.users[k]) == s.users[k]);
        assert(forall|r: int|
            0 <= r < post.rooms.len() ==> has_user_id(post.users, (#[trigger] post.rooms[r]).owner_id))
            by {
            assert forall|r: int|
                0 <= r < post.rooms.len() implies has_user_id(
                post.users,
                (#[trigger] post.rooms[r]).owner_id,
            ) by {
                let j = choose|j: int|
                    0 <= j < s.users.len() && #[trigger] s.users[j].id == s.rooms[r].owner_id;
                assert(post.users[j].id == s.rooms[r].owner_id);
            }
        }
    }
}

impl Store {
    /// An empty store.
    pub fn new() -> (r: Store)
        ensures
            r@.users =~= Seq::<UserView>::empty(),
            r@.rooms =~= Seq::<RoomView>::empty(),
            wf(r@),
    {
        let s = Store { users: Vec::new(), rooms: Vec::new() };
        proof {
            assert(s@.users =~= Seq::<UserView>::empty());
            assert(s@.rooms =~= Seq::<RoomView>::empty());
        }
        s
    }

    /// Whether a user row with this id exists.
    pub fn contains_user_id(&self, id: UserId) -> (r: bool)
        ensures
            r == has_user_id(self@.users, id),
    {
        let mut i: usize = 0;
        while i < self.users.len()
            invariant
                i <= self.users.len(),
                self@.users.len() == self.users@.len(),
                forall|j: int| 0 <= j < i ==> (#[trigger] self@.users[j]).id != id,
            decreases self.users.len() - i,
        {
            if self.users[i].id == id {
                proof {
                    assert(self@.users[i as int].id == id);
                }
                return true;
            }
            i += 1;
        }
        false
    }

    /// The atomic upsert with a caller-chosen fresh id: behaves exactly as
    /// `sync_transition` says, in one conditional insert-or-update keyed by
    /// the unique subject, with no read-then-write window.
    pub fn synchronize_with_id(&mut self, claims: &Claims, id: UserId, now: u64) -> (r: Result<
        UserId,
        StorageError,
    >)
        requires
            wf(old(self)@),
        ensures
            final(self)@ == sync_transition(old(self)@, claims@, id, now).0,
            r == sync_transition(old(self)@, claims@, id, now).1,
            wf(final(self)@),
    {
        proof {
            lemma_subject_index(old(self)@.users, claims@.subject);
            lemma_sync_preserves_wf(old(self)@, claims@, id, now);
        }
        let ghost pre = old(self)@;
        let mut i: usize = 0;
        while i < self.users.len()
            invariant
                i <= self.users.len(),
                self@ == old(self)@,
                pre == old(self)@,
                wf(pre),
                self@.users.len() == self.users@.len(),
                forall|j: int| 0 <= j < i ==> (#[trigger] self@.users[j]).subject != claims@.subject,
            decreases self.users.len() - i,
        {
            let found = str_eq(self.users[i].external_subject_id.as_str(), claims.subject.as_str());
            if found {
                proof {
                    lemma_sync_preserves_wf(pre, claims@, id, now);
                    let ghost sub = claims@.subject;
                    assert(pre.users[i as int].subject == sub);
                    lemma_subject_index(pre.users, sub);
                    let ghost si = subject_index(pre.users, sub);
                    if si == -1 {
                        assert(false);
                    } else if si < i as int {
                        assert(pre.users[si].subject != sub);
                        assert(false);
                    } else if si > i as int {
                        assert(pre.users[i as int].subject != sub);
                        assert(false);
                    }
                    assert(si == i as int);
                }
                let uid = self.users[i].id;
                let updated = User {
                    id: uid,
                    external_subject_id: self.users[i].external_subject_id.clone(),
                    email: clone_opt_str(&claims.email),
                    display_name: clone_opt_str(&claims.display_name),
                    avatar_url: clone_opt_str(&claims.avatar_url),
                    created_at: self.users[i].created_at,
                    updated_at: now,
                };
                self.users[i] = updated;
                proof {
                    assert(self@.users =~= pre.users.update(
                        i as int,
                        refreshed_user(pre.users[i as int], claims@, now),
                    ));
                    assert(self@.rooms =~= pre.rooms);
                }
                return Ok(uid);
            }
            i += 1;
        }
        proof {
            lemma_subject_index(pre.users, claims@.subject);
            assert(subject_index(pre.users, claims@.subject) == -1) by {
                let si = subject_index(pre.users, claims@.subject);
                if si >= 0 {
                    assert(pre.users[si].subject == claims@.subject);
                }
            }
        }
        if self.contains_user_id(id) {
            return Err(StorageError::ConstraintViolation);
        }
        let fresh_row = User {
            id,
            external_subject_id: claims.subject.clone(),
            email: clone_opt_str(&claims.email),
            display_name: clone_opt_str(&claims.display_name),
            avatar_url: clone_opt_str(&claims.avatar_url),
            created_at: now,
            updated_at: now,
        };
        self.users.push(fresh_row);
        proof {
            assert(self@.users =~= pre.users.push(inserted_user(id, claims@, now)));
            assert(self@.rooms =~= pre.rooms);
        }
        Ok(id)
    }

    /// The atomic upsert, with the fresh id drawn as a time-ordered UUID.
    /// Whatever id was drawn, the store moves by exactly one `sync_transition`
    /// step for it.
    pub fn synchronize(&mut self, claims: &Claims, now: u64) -> (r: Result<UserId, StorageError>)
        requires
            wf(old(self)@),
        ensures
            wf(final(self)@),
            exists|id: UserId|
                #![auto]
                final(self)@ == sync_transition(old(self)@, claims@, id, now).0 && r
                    == sync_transition(old(self)@, claims@, id, now).1,
            r is Err ==> final(self)@ == old(self)@,
            has_subject(old(self)@.users, claims@.subject) ==> r is Ok,
            r is Ok ==> has_subject(final(self)@.users, claims@.subject)
                && final(self)@.users[subject_index(final(self)@.users, claims@.subject)].id
                == r->Ok_0,
    {
        let ghost pre = self@;
        let id = UserId::fresh();
        let r = self.synchronize_with_id(claims, id, now);
        proof {
            assert(self@ == sync_transition(pre, claims@, id, now).0 && r == sync_transition(
                pre,
                claims@,
                id,
                now,
            ).1);
            lemma_subject_index(pre.users, claims@.subject);
            if sync_transition(pre, claims@, id, now).1 is Ok {
                lemma_sync_result_subject(pre, claims@, id, now);
            }
        }
        r
    }
}

} // verus!
