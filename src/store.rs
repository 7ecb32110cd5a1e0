use vstd::prelude::*;

use crate::models::{users_view, User, UserView};
use crate::services::ServiceError;

verus! {

/// Some row has the identifier.
pub open spec fn has_id(rows: Seq<UserView>, id: u128) -> bool {
    exists|i: int| 0 <= i < rows.len() && rows[i].id == id
}

/// No two rows share an identifier: the table's primary key.
pub open spec fn ids_unique(rows: Seq<UserView>) -> bool {
    forall|i: int, j: int|
        0 <= i < rows.len() && 0 <= j < rows.len() && rows[i].id == rows[j].id ==> i == j
}

/// The row with the identifier, the latest such where several are.
pub open spec fn lookup(rows: Seq<UserView>, id: u128) -> Option<UserView>
    decreases rows.len(),
{
    if rows.len() == 0 {
        None
    } else if rows.last().id == id {
        Some(rows.last())
    } else {
        lookup(rows.drop_last(), id)
    }
}

/// Where identifiers are unique, the lookup finds the row at any index
/// that holds the identifier, and nothing where none does.
pub proof fn lemma_lookup_index(rows: Seq<UserView>, id: u128)
    requires
        ids_unique(rows),
    ensures
        lookup(rows, id) is None <==> !has_id(rows, id),
        forall|i: int| 0 <= i < rows.len() && rows[i].id == id ==> lookup(rows, id) == Some(rows[i]),
    decreases rows.len(),
{
    if rows.len() > 0 {
        let init = rows.drop_last();
        assert(ids_unique(init));
        lemma_lookup_index(init, id);
        if rows.last().id != id {
            assert(has_id(rows, id) ==> has_id(init, id)) by {
                if has_id(rows, id) {
                    let i = choose|i: int| 0 <= i < rows.len() && rows[i].id == id;
                    assert(init[i].id == id);
                }
            }
            assert(has_id(init, id) ==> has_id(rows, id)) by {
                if has_id(init, id) {
                    let i = choose|i: int| 0 <= i < init.len() && init[i].id == id;
                    assert(rows[i].id == id);
                }
            }
        } else {
            assert(rows[rows.len() - 1].id == id);
        }
    }
}

/// A user created into a table whose identifiers are unique carries an
/// identifier that no earlier user has, keeps the identifiers unique, and is
/// the row that a lookup by that identifier returns.
pub proof fn lemma_created_user_is_found(before: Seq<UserView>, u: UserView)
    requires
        ids_unique(before),
        !has_id(before, u.id),
    ensures
        forall|j: int| 0 <= j < before.len() ==> before[j].id != u.id,
        ids_unique(before.push(u)),
        lookup(before.push(u), u.id) == Some(u),
{
    let after = before.push(u);
    assert(after.drop_last() =~= before);
    assert forall|i: int, j: int|
        0 <= i < after.len() && 0 <= j < after.len() && after[i].id == after[j].id implies i
        == j by {
        if i < before.len() {
            assert(after[i] == before[i]);
        }
        if j < before.len() {
            assert(after[j] == before[j]);
        }
    }
}

/// Starting from an empty table, a run of creations, each adding one row,
/// leaves exactly the created users, one for each creation, in the order of
/// creation.
pub proof fn lemma_listing_after_creations(states: Seq<Seq<UserView>>, created: Seq<UserView>)
    requires
        states.len() == created.len() + 1,
        states[0] == Seq::<UserView>::empty(),
        forall|k: int| 0 <= k < created.len() ==> #[trigger] states[k + 1] == states[k].push(created[k]),
    ensures
        states.last() == created,
    decreases created.len(),
{
    if created.len() == 0 {
        assert(states.last() =~= created);
    } else {
        let n = created.len() - 1;
        let fewer_states = states.subrange(0, n + 1);
        let fewer = created.subrange(0, n as int);
        assert forall|k: int| 0 <= k < fewer.len() implies #[trigger] fewer_states[k + 1]
            == fewer_states[k].push(fewer[k]) by {
            assert(states[k + 1] == states[k].push(created[k]));
        }
        lemma_listing_after_creations(fewer_states, fewer);
        assert(states[n + 1] == states[n as int].push(created[n as int]));
        assert(states.last() =~= created);
    }
}

/// The users table, held in memory in the order of insertion.
pub struct UserStore {
    users: Vec<User>,
}

impl View for UserStore {
    type V = Seq<UserView>;

    closed spec fn view(&self) -> Seq<UserView> {
        users_view(self.users@)
    }
}

/// The message of an insert whose identifier is taken.
pub open spec fn duplicate_key_message() -> Seq<char> {
    "error returned from database: duplicate key value violates unique constraint \"users_pkey\""@
}

impl UserStore {
    /// The identifiers of the rows are unique.
    pub open spec fn well_formed(&self) -> bool {
        ids_unique(self@)
    }

    /// An empty table.
    pub fn new() -> (r: Self)
        ensures
            r@ == Seq::<UserView>::empty(),
            r.well_formed(),
    {
        let r = UserStore { users: Vec::new() };
        assert(r@ =~= Seq::<UserView>::empty());
        r
    }

    /// The number of rows.
    pub fn len(&self) -> (r: usize)
        ensures
            r == self@.len(),
    {
        self.users.len()
    }

    /// Whether some row has the identifier.
    pub fn contains_id(&self, id: u128) -> (r: bool)
        ensures
            r == has_id(self@, id),
    {
        let mut i: usize = 0;
        while i < self.users.len()
            invariant
                i <= self.users@.len(),
                self@ == users_view(self.users@),
                forall|k: int| 0 <= k < i ==> self@[k].id != id,
            decreases self.users@.len() - i,
        {
            if self.users[i].id == id {
                assert(self@[i as int].id == id);
                return true;
            }
            i = i + 1;
        }
        false
    }

    /// Inserts a row whose identifier is not yet taken; refuses one whose
    /// identifier is, as a primary key does.
    pub fn insert(&mut self, user: User) -> (r: Result<User, ServiceError>)
        requires
            old(self).well_formed(),
        ensures
            final(self).well_formed(),
            match r {
                Ok(u) => {
                    &&& !has_id(old(self)@, user.id)
                    &&& u@ == user@
                    &&& final(self)@ == old(self)@.push(user@)
                },
                Err(e) => {
                    &&& has_id(old(self)@, user.id)
                    &&& e.is_database(duplicate_key_message())
                    &&& final(self)@ == old(self)@
                },
            },
    {
        if self.contains_id(user.id) {
            return Err(
                ServiceError::DatabaseError(
                    String::from_str("error returned from database: duplicate key value violates unique constraint \"users_pkey\""),
                ),
            );
        }
        let out = user.clone();
        let ghost before = self@;
        self.users.push(user);
        assert(self@ =~= before.push(out@));
        Ok(out)
    }

    /// Every row, in the order of insertion.
    pub fn rows(&self) -> (r: Vec<User>)
        ensures
            users_view(r@) == self@,
    {
        let mut out: Vec<User> = Vec::new();
        let mut i: usize = 0;
        while i < self.users.len()
            invariant
                i <= self.users@.len(),
                self@ == users_view(self.users@),
                users_view(out@) =~= self@.subrange(0, i as int),
            decreases self.users@.len() - i,
        {
            let u = self.users[i].clone();
            let ghost before = out@;
            out.push(u);
            assert(out@ == before.push(u));
            assert(self@[i as int] == self.users@[i as int]@);
            assert(users_view(out@) =~= users_view(before).push(u@));
            i = i + 1;
            assert(users_view(out@) =~= self@.subrange(0, i as int));
        }
        assert(self@.subrange(0, i as int) =~= self@);
        out
    }

    /// The row with the identifier, if any.
    pub fn find(&self, id: u128) -> (r: Option<User>)
        requires
            self.well_formed(),
        ensures
            match lookup(self@, id) {
                Some(u) => r is Some && r->Some_0@ == u,
                None => r is None,
            },
    {
        let mut i: usize = 0;
        while i < self.users.len()
            invariant
                i <= self.users@.len(),
                self@ == users_view(self.users@),
                self.well_formed(),
                forall|k: int| 0 <= k < i ==> self@[k].id != id,
            decreases self.users@.len() - i,
        {
            if self.users[i].id == id {
                let u = self.users[i].clone();
                assert(self@[i as int] == self.users@[i as int]@);
                assert(self@[i as int].id == id);
                proof {
                    lemma_lookup_index(self@, id);
                }
                return Some(u);
            }
            i = i + 1;
        }
        proof {
            lemma_lookup_index(self@, id);
        }
        None
    }
}

} // verus!
