//! The repository interface and its in-memory implementation for users.

use std::collections::HashMap;
use vstd::prelude::*;
use crate::model::{empty_name_message, is_storable, StoreState};
use crate::user::{User, UserView};

verus! {

/// A keyed collection of records of type `T`, found, saved and deleted by
/// identifier.
pub trait Repository<T> {
    /// Whether `save` can take `item`. A repository that hands out
    /// identifiers from a counter says here when the counter is used up;
    /// one that says nothing takes every item.
    open spec fn has_room_for(&self, item: &T) -> bool {
        true
    }

    /// A copy of the record stored under `id`, if there is one.
    fn find_by_id(&self, id: u64) -> Option<T>;

    /// Stores `item`, replacing what was stored under its identifier.
    fn save(&mut self, item: T) -> Result<(), String>
        requires
            old(self).has_room_for(&item),
    ;

    /// Removes the record stored under `id`, and says whether there was one.
    fn delete(&mut self, id: u64) -> bool;
}

/// A store of users in memory, with a counter that hands out identifiers.
pub struct InMemoryUserRepository {
    users: HashMap<u64, User>,
    next_id: u64,
}

impl View for InMemoryUserRepository {
    type V = StoreState;

    closed spec fn view(&self) -> StoreState {
        StoreState { users: views_of(self.users@), next_id: self.next_id }
    }
}

/// The records of `users`, each by its mathematical value.
spec fn views_of(users: Map<u64, User>) -> Map<u64, UserView> {
    users.map_values(|user: User| user@)
}

proof fn lemma_views_of_insert(users: Map<u64, User>, id: u64, user: User)
    ensures
        views_of(users.insert(id, user)) == views_of(users).insert(id, user@),
{
    assert(views_of(users.insert(id, user)) =~= views_of(users).insert(id, user@));
}

proof fn lemma_views_of_remove(users: Map<u64, User>, id: u64)
    ensures
        views_of(users.remove(id)) == views_of(users).remove(id),
{
    assert(views_of(users.remove(id)) =~= views_of(users).remove(id));
}

impl InMemoryUserRepository {
    #[verifier::type_invariant]
    spec fn inv(&self) -> bool {
        self@.wf()
    }

    /// An empty store whose counter stands at 1.
    pub fn new() -> (repo: Self)
        ensures
            repo@ == StoreState::empty(),
    {
        let repo = Self { users: HashMap::new(), next_id: 1 };
        assert(repo@.users =~= Map::empty());
        repo
    }

    /// Stores the administrator's record under the counter's value and
    /// advances the counter.
    pub fn seed_data(&mut self)
        requires
            old(self)@.can_allocate(),
        ensures
            final(self)@ == old(self)@.after_seed(),
            final(self)@.wf(),
    {
        proof {
            use_type_invariant(&*self);
        }
        let admin = User {
            id: self.next_id,
            name: "Admin User".to_string(),
            email: "admin@example.com".to_string(),
            active: true,
        };
        self.put(admin);
        self.next_id += 1;
    }

    /// The identifier that the next record without one will get.
    pub fn next_id(&self) -> (id: u64)
        ensures
            id == self@.next_id,
            self@.wf(),
    {
        proof {
            use_type_invariant(self);
        }
        self.next_id
    }

    /// Stores `user` under its identifier, in place of what was there. The
    /// map leaves the store while it changes and comes back whole, so that
    /// the store is well formed at every step.
    fn put(&mut self, user: User)
        requires
            user.id != 0,
        ensures
            final(self)@.users == old(self)@.users.insert(user.id, user@),
            final(self)@.next_id == old(self)@.next_id,
    {
        proof {
            use_type_invariant(&*self);
        }
        let mut users = HashMap::new();
        std::mem::swap(&mut self.users, &mut users);
        proof {
            lemma_views_of_insert(users@, user.id, user);
        }
        users.insert(user.id, user);
        self.users = users;
    }
}

impl Repository<User> for InMemoryUserRepository {
    open spec fn has_room_for(&self, item: &User) -> bool {
        self@.can_save(item@)
    }

    fn find_by_id(&self, id: u64) -> (found: Option<User>)
        ensures
            self@.wf(),
            found matches Some(user) ==> self@.find(id) == Some(user@),
            found is None ==> self@.find(id) is None,
    {
        proof {
            use_type_invariant(self);
        }
        match self.users.get(&id) {
            Some(user) => Some(user.clone()),
            None => None,
        }
    }

    fn save(&mut self, item: User) -> (outcome: Result<(), String>)
        ensures
            final(self)@ == old(self)@.after_save(item@),
            final(self)@.wf(),
            is_storable(item@) ==> outcome is Ok,
            !is_storable(item@) ==> (outcome matches Err(message) && message@
                == empty_name_message()),
    {
        proof {
            use_type_invariant(&*self);
        }
        let mut user = item;
        if user.id == 0 {
            user.id = self.next_id;
            self.next_id += 1;
        }
        if user.name.as_str().is_empty() {
            return Err("User name cannot be empty".to_string());
        }
        self.put(user);
        Ok(())
    }

    fn delete(&mut self, id: u64) -> (removed: bool)
        ensures
            final(self)@ == old(self)@.after_delete(id),
            final(self)@.wf(),
            removed == old(self)@.users.contains_key(id),
    {
        proof {
            use_type_invariant(&*self);
        }
        let mut users = HashMap::new();
        std::mem::swap(&mut self.users, &mut users);
        proof {
            lemma_views_of_remove(users@, id);
        }
        let removed = users.remove(&id).is_some();
        self.users = users;
        removed
    }
}

} // verus!
