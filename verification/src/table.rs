//! The users table as the service sees it: rows keyed by id, inserted once
//! and never changed. `UserTable` keeps the rows in memory under the same
//! rules as the relational table.

use vstd::prelude::*;
use crate::ids::{assignable, fresh_id};
use crate::model::{ApiError, User, UserModel};

verus! {

/// The contents of a users table: each stored user under its id.
pub type Rows = Map<int, UserModel>;

/// The table after an insert of `u` is attempted: `u` is added under its
/// id where it has one that no row holds yet; otherwise nothing changes.
pub open spec fn inserted(t: Rows, u: UserModel) -> Rows {
    match u.id {
        Some(id) => if t.contains_key(id) {
            t
        } else {
            t.insert(id, u)
        },
        None => t,
    }
}

/// Whether an insert of `u` into `t` is accepted.
pub open spec fn accepts(t: Rows, u: UserModel) -> bool {
    u.id matches Some(id) && !t.contains_key(id)
}

/// What a lookup of `id` in `t` gives.
pub open spec fn found(t: Rows, id: int) -> Result<UserModel, ApiError> {
    if t.contains_key(id) {
        Ok(t[id])
    } else {
        Err(ApiError::NotFound)
    }
}

/// The table after the inserts `users` were attempted in turn on an empty
/// table.
pub open spec fn after_inserts(users: Seq<UserModel>) -> Rows
    decreases users.len(),
{
    if users.len() == 0 {
        Map::empty()
    } else {
        inserted(after_inserts(users.drop_last()), users.last())
    }
}

/// The table that a sequence of rows makes up, a later row standing for
/// an earlier one with the same id.
pub open spec fn rows_of(rows: Seq<User>) -> Rows
    decreases rows.len(),
{
    if rows.len() == 0 {
        Map::empty()
    } else {
        match rows.last().id {
            Some(id) => rows_of(rows.drop_last()).insert(id as int, rows.last()@),
            None => rows_of(rows.drop_last()),
        }
    }
}

/// Whether a table is keyed as the store keeps it: finitely many rows, each
/// under its own id.
pub open spec fn keyed(t: Rows) -> bool {
    &&& t.dom().finite()
    &&& forall|id: int| #[trigger] t.contains_key(id) ==> t[id].id == Some(id)
}

/// An insert keeps a table keyed; an accepted one adds one row, a refused
/// one none.
pub proof fn lemma_insert_keeps_keyed(t: Rows, u: UserModel)
    requires
        keyed(t),
    ensures
        keyed(inserted(t, u)),
        accepts(t, u) ==> inserted(t, u).len() == t.len() + 1,
        !accepts(t, u) ==> inserted(t, u) == t,
{
}

/// The rows that a sequence makes up are keyed.
pub proof fn lemma_rows_are_keyed(rows: Seq<User>)
    ensures
        keyed(rows_of(rows)),
    decreases rows.len(),
{
    if rows.len() > 0 {
        lemma_rows_are_keyed(rows.drop_last());
    }
}

/// A user that was created is found again: after an accepted insert of
/// `u`, which carries an assignable id, a lookup of that id gives `u`,
/// with the same name and email.
pub proof fn lemma_created_user_is_found(t: Rows, u: UserModel)
    requires
        accepts(t, u),
    ensures
        found(inserted(t, u), u.id.unwrap()) == Ok::<UserModel, ApiError>(u),
{
}

/// An insert leaves every other id as it was.
pub proof fn lemma_insert_keeps_others(t: Rows, u: UserModel, id: int)
    requires
        u.id != Some(id),
    ensures
        found(inserted(t, u), id) == found(t, id),
{
}

/// An id that no insert carried is not found, whatever was inserted.
pub proof fn lemma_unassigned_id_is_not_found(users: Seq<UserModel>, id: int)
    requires
        forall|i: int| 0 <= i < users.len() ==> (#[trigger] users[i]).id != Some(id),
    ensures
        found(after_inserts(users), id) == Err::<UserModel, ApiError>(ApiError::NotFound),
    decreases users.len(),
{
    if users.len() > 0 {
        let init = users.drop_last();
        assert forall|i: int| 0 <= i < init.len() implies (#[trigger] init[i]).id != Some(id) by {
            assert(init[i] == users[i]);
        }
        lemma_unassigned_id_is_not_found(init, id);
        lemma_insert_keeps_others(after_inserts(init), users.last(), id);
    }
}

/// A second insert under an id that is taken is refused and changes
/// nothing: the first user is still the one found.
pub proof fn lemma_collision_keeps_first(t: Rows, first: UserModel, second: UserModel)
    requires
        accepts(t, first),
        second.id == first.id,
    ensures
        !accepts(inserted(t, first), second),
        inserted(inserted(t, first), second) == inserted(t, first),
        found(inserted(inserted(t, first), second), first.id.unwrap()) == Ok::<
            UserModel,
            ApiError,
        >(first),
{
}

/// A users table held in memory.
pub struct UserTable {
    rows: Vec<User>,
}

impl View for UserTable {
    type V = Rows;

    closed spec fn view(&self) -> Rows {
        rows_of(self.rows@)
    }
}

impl UserTable {
    /// Every table is keyed: it holds finitely many rows, each under its
    /// own id.
    pub proof fn lemma_keyed(&self)
        ensures
            keyed(self@),
    {
        lemma_rows_are_keyed(self.rows@);
    }

    /// An empty table.
    pub fn new() -> (t: UserTable)
        ensures
            t@ == Map::<int, UserModel>::empty(),
            t@.len() == 0,
    {
        UserTable { rows: Vec::new() }
    }

    /// Whether a row has this id.
    pub fn contains(&self, id: i32) -> (b: bool)
        ensures
            b == self@.contains_key(id as int),
    {
        let mut i: usize = self.rows.len();
        assert(self.rows@.subrange(0, i as int) =~= self.rows@);
        while i > 0
            invariant
                i <= self.rows.len(),
                self@.contains_key(id as int) == rows_of(self.rows@.subrange(0, i as int)).contains_key(
                    id as int,
                ),
            decreases i,
        {
            let ghost upto = self.rows@.subrange(0, i as int);
            assert(upto.drop_last() =~= self.rows@.subrange(0, i - 1));
            assert(upto.last() == self.rows@[i - 1]);
            i = i - 1;
            match self.rows[i].id {
                Some(n) => {
                    if n == id {
                        return true;
                    }
                },
                None => {},
            }
        }
        false
    }

    /// Inserts `user` under its id. The store refuses a user without an
    /// id and one whose id a row already has; the table is then unchanged.
    pub fn insert(&mut self, user: User) -> (r: Result<i32, ApiError>)
        ensures
            final(self)@ == inserted(old(self)@, user@),
            match r {
                Ok(id) => {
                    &&& accepts(old(self)@, user@)
                    &&& user.id == Some(id)
                    &&& final(self)@.len() == old(self)@.len() + 1
                },
                Err(e) => {
                    &&& !accepts(old(self)@, user@)
                    &&& e == ApiError::StorageError
                    &&& final(self)@ == old(self)@
                },
            },
    {
        proof {
            self.lemma_keyed();
            lemma_insert_keeps_keyed(self@, user@);
        }
        match user.id {
            None => Err(ApiError::StorageError),
            Some(id) => {
                if self.contains(id) {
                    Err(ApiError::StorageError)
                } else {
                    let ghost before = self.rows@;
                    self.rows.push(user);
                    proof {
                        assert(self.rows@.drop_last() =~= before);
                        assert(self.rows@.last() == user);
                    }
                    Ok(id)
                }
            },
        }
    }

    /// Creates a user: draws an id, then inserts the row under it. There
    /// is no second draw: where the id is taken, and only then, the create
    /// fails, and the table is unchanged.
    pub fn create_user(&mut self, name: String, email: String) -> (r: Result<i32, ApiError>)
        ensures
            match r {
                Ok(id) => {
                    &&& assignable(id as int)
                    &&& !old(self)@.contains_key(id as int)
                    &&& final(self)@ == old(self)@.insert(
                        id as int,
                        (UserModel { id: Some(id as int), name: name@, email: email@ }),
                    )
                    &&& final(self)@.len() == old(self)@.len() + 1
                },
                Err(e) => {
                    &&& e == ApiError::StorageError
                    &&& final(self)@ == old(self)@
                    &&& exists|id: int| assignable(id) && #[trigger] old(self)@.contains_key(id)
                },
            },
    {
        let id = fresh_id();
        let r = self.insert(User { id: Some(id), name, email });
        assert(r is Err ==> old(self)@.contains_key(id as int));
        r
    }

    /// Looks up the user with this id.
    pub fn get_user_by_id(&self, id: i32) -> (r: Result<User, ApiError>)
        ensures
            match r {
                Ok(u) => found(self@, id as int) == Ok::<UserModel, ApiError>(u@) && u.id == Some(id),
                Err(e) => found(self@, id as int) == Err::<UserModel, ApiError>(e),
            },
    {
        proof {
            self.lemma_keyed();
        }
        let mut i: usize = self.rows.len();
        assert(self.rows@.subrange(0, i as int) =~= self.rows@);
        while i > 0
            invariant
                i <= self.rows.len(),
                found(self@, id as int) == found(
                    rows_of(self.rows@.subrange(0, i as int)),
                    id as int,
                ),
            decreases i,
        {
            let ghost upto = self.rows@.subrange(0, i as int);
            assert(upto.drop_last() =~= self.rows@.subrange(0, i - 1));
            assert(upto.last() == self.rows@[i - 1]);
            i = i - 1;
            let row = &self.rows[i];
            match row.id {
                Some(n) => {
                    if n == id {
                        let u = User { id: row.id, name: row.name.clone(), email: row.email.clone() };
                        assert(u@ == row@);
                        return Ok(u);
                    }
                },
                None => {},
            }
        }
        Err(ApiError::NotFound)
    }
}

} // verus!
