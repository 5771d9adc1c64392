//! A keyed registry of users. No two users share an id.

use vstd::prelude::*;

verus! {

/// Verification state of a user.
#[derive(Clone, Copy, Debug, PartialEq, Eq, Structural)]
pub enum Status {
    Unverify,
    Success,
    Failed,
}

/// One registered user.
#[derive(Debug, PartialEq, Eq)]
pub struct User {
    pub id: String,
    pub name: String,
    pub email: String,
    pub phone: String,
    pub address: String,
    pub status: Status,
}

/// What a [`User`] is, as plain values.
pub ghost struct UserView {
    pub id: Seq<char>,
    pub name: Seq<char>,
    pub email: Seq<char>,
    pub phone: Seq<char>,
    pub address: Seq<char>,
    pub status: Status,
}

impl View for User {
    type V = UserView;

    open spec fn view(&self) -> UserView {
        UserView {
            id: self.id@,
            name: self.name@,
            email: self.email@,
            phone: self.phone@,
            address: self.address@,
            status: self.status,
        }
    }
}

impl Clone for User {
    fn clone(&self) -> (res: Self)
        ensures
            res@ == self@,
    {
        User {
            id: self.id.clone(),
            name: self.name.clone(),
            email: self.email.clone(),
            phone: self.phone.clone(),
            address: self.address.clone(),
            status: self.status,
        }
    }
}

/// Why a registry operation was refused.
#[derive(Clone, Copy, Debug, PartialEq, Eq, Structural)]
pub enum UserError {
    /// `create_user` was given an id that is already taken.
    AlreadyExists,
    /// `update_user` or `delete_user` was given an id that nobody has.
    NotFound,
}

/// Whether some user in `users` has the id `id`.
pub open spec fn has_id(users: Seq<UserView>, id: Seq<char>) -> bool {
    exists|i: int| 0 <= i < users.len() && #[trigger] users[i].id == id
}

/// Whether the user at `i` is the first in `users` with the id `id`. Where
/// ids are distinct it is the only one.
pub open spec fn is_first_with_id(users: Seq<UserView>, id: Seq<char>, i: int) -> bool {
    &&& 0 <= i < users.len()
    &&& users[i].id == id
    &&& forall|j: int| 0 <= j < i ==> (#[trigger] users[j]).id != id
}

/// Whether no two users in `users` share an id.
pub open spec fn ids_distinct(users: Seq<UserView>) -> bool {
    forall|i: int, j: int|
        0 <= i < j < users.len() ==> #[trigger] users[i].id != #[trigger] users[j].id
}

/// The user created by `create_user`: the given fields, not yet verified.
pub open spec fn fresh_user(
    id: Seq<char>,
    name: Seq<char>,
    email: Seq<char>,
    phone: Seq<char>,
    address: Seq<char>,
) -> UserView {
    UserView { id, name, email, phone, address, status: Status::Unverify }
}

/// `u` under a new name.
pub open spec fn renamed(u: UserView, name: Seq<char>) -> UserView {
    UserView { name, ..u }
}

/// The users, in order of creation.
pub struct UserRegistry {
    users: Vec<User>,
}

impl View for UserRegistry {
    type V = Seq<UserView>;

    closed spec fn view(&self) -> Seq<UserView> {
        self.users@.map_values(|u: User| u@)
    }
}

impl UserRegistry {
    /// The invariant of the registry: ids are unique.
    pub open spec fn wf(&self) -> bool {
        ids_distinct(self@)
    }

    /// The position of the user with id `id`, if there is one.
    fn position(&self, id: &String) -> (res: Option<usize>)
        ensures
            match res {
                Some(i) => is_first_with_id(self@, id@, i as int),
                None => !has_id(self@, id@),
            },
    {
        let mut i: usize = 0;
        while i < self.users.len()
            invariant
                i <= self.users.len(),
                forall|j: int| 0 <= j < i ==> (#[trigger] self@[j]).id != id@,
            decreases self.users.len() - i,
        {
            if self.users[i].id == *id {
                return Some(i);
            }
            i += 1;
        }
        None
    }

    /// A registry without users.
    pub fn new() -> (res: Self)
        ensures
            res@ == Seq::<UserView>::empty(),
            res.wf(),
    {
        UserRegistry { users: Vec::new() }
    }

    /// The number of users.
    pub fn len(&self) -> (res: usize)
        ensures
            res == self@.len(),
    {
        self.users.len()
    }

    /// Registers a user under `id` with status `Unverify`, unless the id is
    /// taken; then the registry stays as it is.
    pub fn create_user(
        &mut self,
        id: String,
        name: String,
        email: String,
        phone: String,
        address: String,
    ) -> (res: Result<(), UserError>)
        requires
            old(self).wf(),
        ensures
            final(self).wf(),
            has_id(old(self)@, id@) ==> res == Err::<(), UserError>(UserError::AlreadyExists)
                && final(self)@ == old(self)@,
            !has_id(old(self)@, id@) ==> res == Ok::<(), UserError>(()) && final(self)@ == old(
                self,
            )@.push(fresh_user(id@, name@, email@, phone@, address@)),
    {
        if self.position(&id).is_some() {
            return Err(UserError::AlreadyExists);
        }
        let user = User { id, name, email, phone, address, status: Status::Unverify };
        self.users.push(user);
        assert(self@ =~= old(self)@.push(user@));
        Ok(())
    }

    /// The user with id `id`.
    pub fn get_user(&self, id: &String) -> (res: Option<User>)
        ensures
            res is Some <==> has_id(self@, id@),
            res matches Some(u) ==> exists|i: int| is_first_with_id(self@, id@, i) && u@ == self@[i],
    {
        match self.position(id) {
            Some(i) => {
                let u = self.users[i].clone();
                assert(is_first_with_id(self@, id@, i as int) && self@[i as int] == u@);
                Some(u)
            },
            None => None,
        }
    }

    /// Gives the user with id `id` the name `new_name`.
    pub fn update_user(&mut self, id: &String, new_name: String) -> (res: Result<(), UserError>)
        requires
            old(self).wf(),
        ensures
            final(self).wf(),
            !has_id(old(self)@, id@) ==> res == Err::<(), UserError>(UserError::NotFound)
                && final(self)@ == old(self)@,
            has_id(old(self)@, id@) ==> res == Ok::<(), UserError>(()) && final(self)@.len()
                == old(self)@.len() && forall|i: int|
                0 <= i < old(self)@.len() ==> #[trigger] final(self)@[i] == if old(self)@[i].id
                    == id@ {
                    renamed(old(self)@[i], new_name@)
                } else {
                    old(self)@[i]
                },
    {
        match self.position(id) {
            Some(i) => {
                let ghost before = self@;
                let mut user = self.users[i].clone();
                user.name = new_name;
                self.users.set(i, user);
                assert(self@ =~= before.update(i as int, renamed(before[i as int], new_name@)));
                Ok(())
            },
            None => Err(UserError::NotFound),
        }
    }

    /// Removes the user with id `id`.
    pub fn delete_user(&mut self, id: &String) -> (res: Result<(), UserError>)
        requires
            old(self).wf(),
        ensures
            final(self).wf(),
            !has_id(old(self)@, id@) ==> res == Err::<(), UserError>(UserError::NotFound)
                && final(self)@ == old(self)@,
            has_id(old(self)@, id@) ==> res == Ok::<(), UserError>(()) && final(self)@ == old(
                self,
            )@.filter(|u: UserView| u.id != id@),
            !has_id(final(self)@, id@),
    {
        match self.position(id) {
            Some(i) => {
                let ghost before = self@;
                self.users.remove(i);
                proof {
                    assert(self@ =~= before.remove(i as int));
                    lemma_filter_out_single(before, i as int, id@);
                }
                Ok(())
            },
            None => Err(UserError::NotFound),
        }
    }
}

/// Where ids are distinct, dropping every user with the id of the user at `i`
/// is removing the user at `i`.
proof fn lemma_filter_out_single(users: Seq<UserView>, i: int, id: Seq<char>)
    requires
        ids_distinct(users),
        0 <= i < users.len(),
        users[i].id == id,
    ensures
        users.filter(|u: UserView| u.id != id) == users.remove(i),
    decreases users.len(),
{
    let keep = |u: UserView| u.id != id;
    reveal(Seq::filter);
    let last = users.len() - 1;
    if i == last {
        lemma_filter_keeps_all(users.drop_last(), id);
        assert(users.remove(i) =~= users.drop_last());
    } else {
        assert(ids_distinct(users.drop_last()));
        lemma_filter_out_single(users.drop_last(), i, id);
        assert(users[last].id != users[i].id);
        assert(users.remove(i) =~= users.drop_last().remove(i).push(users.last()));
    }
}

/// A filter on an id that nobody has drops nobody.
proof fn lemma_filter_keeps_all(users: Seq<UserView>, id: Seq<char>)
    requires
        !has_id(users, id),
    ensures
        users.filter(|u: UserView| u.id != id) == users,
    decreases users.len(),
{
    reveal(Seq::filter);
    if users.len() > 0 {
        let front = users.drop_last();
        assert forall|k: int| 0 <= k < front.len() implies front[k].id != id by {
            assert(users[k].id == front[k].id);
        }
        lemma_filter_keeps_all(front, id);
        assert(users.last().id != id) by {
            assert(users[users.len() - 1].id == users.last().id);
        }
        assert(front.push(users.last()) =~= users);
    }
}

} // verus!
