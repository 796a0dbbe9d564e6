//! The mathematical model of a user store: its state, what each operation
//! makes of it, and the laws that hold between the operations.

use vstd::prelude::*;
use crate::user::UserView;

verus! {

/// The state of a user store.
pub struct StoreState {
    /// The stored records, by identifier.
    pub users: Map<u64, UserView>,
    /// The identifier that the next record without one will get.
    pub next_id: u64,
}

/// The message of the error for saving a record whose name is empty.
pub open spec fn empty_name_message() -> Seq<char> {
    "User name cannot be empty"@
}

/// Whether a store takes `user`: its name, as it stands, is not empty.
pub open spec fn is_storable(user: UserView) -> bool {
    user.name.len() > 0
}

/// The record that seeding stores under `id`.
pub open spec fn admin_user(id: u64) -> UserView {
    UserView { id, name: "Admin User"@, email: "admin@example.com"@, active: true }
}

impl StoreState {
    /// The state of a new store.
    pub open spec fn empty() -> StoreState {
        StoreState { users: Map::empty(), next_id: 1 }
    }

    /// What holds of every store: the counter is at least 1, no record is
    /// stored under 0, and every record is stored under its own identifier.
    pub open spec fn wf(self) -> bool {
        &&& self.next_id >= 1
        &&& !self.users.contains_key(0)
        &&& forall|id: u64| #[trigger]
            self.users.contains_key(id) ==> self.users[id].id == id
    }

    /// Whether the counter can still be advanced.
    pub open spec fn can_allocate(self) -> bool {
        self.next_id < u64::MAX
    }

    /// Whether the store can save `user`: a record without an identifier
    /// needs one from the counter.
    pub open spec fn can_save(self, user: UserView) -> bool {
        user.id == 0 ==> self.can_allocate()
    }

    /// The record stored under `id`, if there is one.
    pub open spec fn find(self, id: u64) -> Option<UserView> {
        if self.users.contains_key(id) {
            Some(self.users[id])
        } else {
            None
        }
    }

    /// `user` as saving sees it once it has an identifier: its own, or the
    /// counter's value where it had none.
    pub open spec fn identified(self, user: UserView) -> UserView {
        if user.id == 0 {
            UserView { id: self.next_id, ..user }
        } else {
            user
        }
    }

    /// The state after saving `user`. A record without an identifier takes
    /// one from the counter, whether or not it is then stored; a storable
    /// record replaces what was stored under its identifier.
    pub open spec fn after_save(self, user: UserView) -> StoreState {
        StoreState {
            users: if is_storable(user) {
                self.users.insert(self.identified(user).id, self.identified(user))
            } else {
                self.users
            },
            next_id: if user.id == 0 {
                (self.next_id + 1) as u64
            } else {
                self.next_id
            },
        }
    }

    /// The state after deleting what is stored under `id`.
    pub open spec fn after_delete(self, id: u64) -> StoreState {
        StoreState { users: self.users.remove(id), next_id: self.next_id }
    }

    /// The state after seeding: the administrator's record is stored under
    /// the counter's value, and the counter advanced.
    pub open spec fn after_seed(self) -> StoreState {
        StoreState {
            users: self.users.insert(self.next_id, admin_user(self.next_id)),
            next_id: (self.next_id + 1) as u64,
        }
    }

    /// A new store is well formed.
    pub proof fn lemma_empty_wf()
        ensures
            Self::empty().wf(),
    {
    }

    /// Saving keeps a store well formed, whether or not the record is
    /// stored.
    pub proof fn lemma_save_keeps_wf(self, user: UserView)
        requires
            self.wf(),
            self.can_save(user),
        ensures
            self.after_save(user).wf(),
    {
    }

    /// Deleting keeps a store well formed.
    pub proof fn lemma_delete_keeps_wf(self, id: u64)
        requires
            self.wf(),
        ensures
            self.after_delete(id).wf(),
    {
    }

    /// The counter never falls, and stands above every identifier it has
    /// handed out: saving leaves it where it was, or hands out its value and
    /// moves it one further; deleting leaves it where it was.
    pub proof fn lemma_counter_never_falls(self, user: UserView, id: u64)
        requires
            self.can_save(user),
        ensures
            user.id != 0 ==> self.after_save(user).next_id == self.next_id,
            user.id == 0 ==> self.identified(user).id == self.next_id && self.after_save(
                user,
            ).next_id == self.next_id + 1,
            self.after_delete(id).next_id == self.next_id,
    {
    }

    /// A storable record is found, after it was saved, under its identifier:
    /// the record itself where it had one, and else the record with the
    /// value that the counter had before the save.
    pub proof fn lemma_saved_is_found(self, user: UserView)
        requires
            is_storable(user),
        ensures
            self.after_save(user).find(self.identified(user).id) == Some(self.identified(user)),
            user.id == 0 ==> self.after_save(user).find(self.next_id) == Some(
                UserView { id: self.next_id, ..user },
            ),
            user.id != 0 ==> self.after_save(user).find(user.id) == Some(user),
    {
    }

    /// Saving touches nothing but the record's own identifier.
    pub proof fn lemma_save_leaves_others(self, user: UserView, id: u64)
        requires
            id != self.identified(user).id,
        ensures
            self.after_save(user).find(id) == self.find(id),
    {
    }

    /// A record with an empty name and without an identifier is not stored,
    /// yet takes the counter's value with it: a storable record without an
    /// identifier that is saved next gets the value after it, and nothing is
    /// stored under the value that was passed over.
    pub proof fn lemma_refused_save_uses_up_identifier(self, refused: UserView, next: UserView)
        requires
            self.next_id + 2 <= u64::MAX,
            refused.id == 0,
            !is_storable(refused),
            next.id == 0,
            is_storable(next),
        ensures
            self.after_save(refused).users == self.users,
            self.after_save(refused).next_id == self.next_id + 1,
            self.after_save(refused).after_save(next).find((self.next_id + 1) as u64) == Some(
                UserView { id: (self.next_id + 1) as u64, ..next },
            ),
            self.after_save(refused).after_save(next).find(self.next_id) == self.find(
                self.next_id,
            ),
    {
    }

    /// Deleting says whether a record was stored under the identifier, and
    /// none is found under it afterwards; all others stay.
    pub proof fn lemma_deleted_is_gone(self, id: u64, other: u64)
        requires
            other != id,
        ensures
            self.after_delete(id).find(id) is None,
            self.after_delete(id).find(other) == self.find(other),
    {
    }

    /// A record that was saved can be deleted: there is one under its
    /// identifier, and none once it is deleted.
    pub proof fn lemma_saved_then_deleted(self, user: UserView)
        requires
            is_storable(user),
        ensures
            self.after_save(user).users.contains_key(self.identified(user).id),
            self.after_save(user).after_delete(self.identified(user).id).find(
                self.identified(user).id,
            ) is None,
    {
    }

    /// Deleting an identifier under which nothing is stored changes nothing.
    pub proof fn lemma_delete_absent(self, id: u64)
        requires
            !self.users.contains_key(id),
        ensures
            self.after_delete(id) == self,
    {
        assert(self.users.remove(id) =~= self.users);
    }

    /// Of two storable records saved under the same identifier, the second
    /// replaces the first: the store is as if the first had never been saved.
    pub proof fn lemma_second_save_overwrites(self, first: UserView, second: UserView)
        requires
            first.id == second.id,
            first.id != 0,
            is_storable(second),
        ensures
            self.after_save(first).after_save(second) == self.after_save(second),
            self.after_save(first).after_save(second).find(second.id) == Some(second),
    {
        assert(self.after_save(first).after_save(second).users =~= self.after_save(second).users);
    }

    /// Seeding is saving the administrator's record without an identifier.
    pub proof fn lemma_seed_is_save(self)
        ensures
            self.after_seed() == self.after_save(admin_user(0)),
    {
        reveal_strlit("Admin User");
    }
}

} // verus!
