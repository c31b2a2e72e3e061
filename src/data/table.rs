use vstd::prelude::*;

use crate::data::handler::{
    finish_fetch_all, finish_fetch_one, finish_insert, finish_matched, query_limit, records,
    QUERY_LIMIT,
};
use crate::data::model::{UserModel, UserRecord};
use crate::data::scheme::{CreateUserScheme, UpdateUserSchema, UpdateView};
use crate::errors::{ErrorKinsper, StoreFailure, TypeErrorKinsper, DUPLICATE_ENTRY};
use crate::text::{occurs_in, same_text};

verus! {

/// No two rows share an id.
pub open spec fn ids_unique(rows: Seq<UserRecord>) -> bool {
    forall|i: int, j: int|
        #![trigger rows[i], rows[j]]
        0 <= i < rows.len() && 0 <= j < rows.len() && rows[i].id == rows[j].id ==> i == j
}

/// Some row has the id `id`.
pub open spec fn holds_id(rows: Seq<UserRecord>, id: Seq<char>) -> bool {
    exists|i: int| 0 <= i < rows.len() && #[trigger] rows[i].id == id
}

/// The position of the row with id `id`, where there is one.
pub open spec fn index_of(rows: Seq<UserRecord>, id: Seq<char>) -> int {
    choose|i: int| 0 <= i < rows.len() && #[trigger] rows[i].id == id
}

/// The row with id `id`, where there is one.
pub open spec fn row_of(rows: Seq<UserRecord>, id: Seq<char>) -> UserRecord {
    rows[index_of(rows, id)]
}

/// A row with the fields that `u` names replaced.
pub open spec fn apply_update(row: UserRecord, u: UpdateView) -> UserRecord {
    UserRecord {
        id: match u.id {
            Some(v) => v,
            None => row.id,
        },
        name: match u.name {
            Some(v) => v,
            None => row.name,
        },
        mail: match u.mail {
            Some(v) => v,
            None => row.mail,
        },
    }
}

/// Whether updating the row with id `id` by `u` would give it the key of another row.
pub open spec fn update_collides(rows: Seq<UserRecord>, id: Seq<char>, u: UpdateView) -> bool {
    match u.id {
        Some(n) => n != id && holds_id(rows, n),
        None => false,
    }
}

/// The rows after the row with id `id` is updated by `u`.
pub open spec fn updated_rows(rows: Seq<UserRecord>, id: Seq<char>, u: UpdateView) -> Seq<
    UserRecord,
> {
    rows.update(index_of(rows, id), apply_update(row_of(rows, id), u))
}

/// The rows after the row with id `id` is removed.
pub open spec fn deleted_rows(rows: Seq<UserRecord>, id: Seq<char>) -> Seq<UserRecord> {
    rows.remove(index_of(rows, id))
}

/// The first `limit` rows, in table order.
pub open spec fn listed_rows(rows: Seq<UserRecord>, limit: u32) -> Seq<UserRecord> {
    if limit >= rows.len() {
        rows
    } else {
        rows.take(limit as int)
    }
}

pub proof fn lemma_index_of(rows: Seq<UserRecord>, id: Seq<char>, k: int)
    requires
        ids_unique(rows),
        0 <= k < rows.len(),
        rows[k].id == id,
    ensures
        holds_id(rows, id),
        index_of(rows, id) == k,
        row_of(rows, id) == rows[k],
{
    assert(holds_id(rows, id));
    let j = index_of(rows, id);
    assert(rows[j].id == id);
}

/// The text a store gives for a second row with the key `id`.
fn duplicate_message(id: &str) -> (r: String)
    ensures
        occurs_in(DUPLICATE_ENTRY@, r@),
{
    let mut r = String::from_str(DUPLICATE_ENTRY);
    r.append(" '");
    r.append(id);
    r.append("' for key 'PRIMARY'");
    let ghost n = DUPLICATE_ENTRY@.len() as int;
    assert(r@.subrange(0, 0 + n) =~= DUPLICATE_ENTRY@);
    r
}

/// An in-process users table with the semantics of the store's statements:
/// rows keep the order in which they were inserted, and the id is the key.
pub struct UserTable {
    rows: Vec<UserModel>,
}

impl View for UserTable {
    type V = Seq<UserRecord>;

    closed spec fn view(&self) -> Seq<UserRecord> {
        records(self.rows@)
    }
}

impl UserTable {
    pub open spec fn wf(&self) -> bool {
        ids_unique(self@)
    }

    /// An empty table.
    pub fn new() -> (r: Self)
        ensures
            r.wf(),
            r@ == Seq::<UserRecord>::empty(),
    {
        let r = UserTable { rows: Vec::new() };
        assert(r@ =~= Seq::<UserRecord>::empty());
        r
    }

    /// Drops every row.
    pub fn reset(&mut self)
        ensures
            final(self).wf(),
            final(self)@ == Seq::<UserRecord>::empty(),
    {
        self.rows.clear();
        assert(self@ =~= Seq::<UserRecord>::empty());
    }

    pub fn len(&self) -> (r: usize)
        ensures
            r == self@.len(),
    {
        self.rows.len()
    }

    /// Where the row with id `id` stands.
    fn position(&self, id: &str) -> (r: Option<usize>)
        requires
            self.wf(),
        ensures
            match r {
                Some(i) => i < self@.len() && self@[i as int].id == id@ && holds_id(self@, id@)
                    && index_of(self@, id@) == i,
                None => !holds_id(self@, id@),
            },
    {
        let mut i: usize = 0;
        while i < self.rows.len()
            invariant
                self.wf(),
                i <= self@.len(),
                forall|k: int| 0 <= k < i ==> #[trigger] self@[k].id != id@,
            decreases self@.len() - i,
        {
            if same_text(self.rows[i].id.as_str(), id) {
                proof {
                    lemma_index_of(self@, id@, i as int);
                }
                return Some(i);
            }
            i = i + 1;
        }
        None
    }

    /// Inserts a row; a taken key is refused the way the store refuses it.
    pub fn insert(&mut self, user: &CreateUserScheme) -> (r: Result<u64, StoreFailure>)
        requires
            old(self).wf(),
        ensures
            final(self).wf(),
            holds_id(old(self)@, user.id@) ==> final(self)@ == old(self)@
                && (r matches Err(StoreFailure::Database { message })
                && occurs_in(DUPLICATE_ENTRY@, message@)),
            !holds_id(old(self)@, user.id@) ==> r == Ok::<u64, StoreFailure>(1)
                && final(self)@ == old(self)@.push(
                (UserRecord { id: user.id@, name: user.name@, mail: user.mail@ }),
            ),
    {
        match self.position(user.id.as_str()) {
            Some(_) => Err(StoreFailure::Database { message: duplicate_message(user.id.as_str()) }),
            None => {
                let ghost before = self@;
                self.rows.push(
                    UserModel { id: user.id.clone(), name: user.name.clone(), mail: user.mail.clone() },
                );
                assert(self@ =~= before.push(
                    UserRecord { id: user.id@, name: user.name@, mail: user.mail@ },
                ));
                Ok(1)
            },
        }
    }

    /// The row with id `id`, or `RowNotFound`.
    pub fn select_by_id(&self, id: &str) -> (r: Result<UserModel, StoreFailure>)
        requires
            self.wf(),
        ensures
            holds_id(self@, id@) ==> (r matches Ok(u) && u@ == row_of(self@, id@)),
            !holds_id(self@, id@) ==> r matches Err(StoreFailure::RowNotFound),
    {
        match self.position(id) {
            Some(i) => Ok(self.rows[i].clone()),
            None => Err(StoreFailure::RowNotFound),
        }
    }

    /// The first `limit` rows, in table order.
    pub fn select_limit(&self, limit: u32) -> (r: Vec<UserModel>)
        ensures
            records(r@) == listed_rows(self@, limit),
    {
        let n: usize = if (limit as usize) < self.rows.len() {
            limit as usize
        } else {
            self.rows.len()
        };
        let mut r: Vec<UserModel> = Vec::new();
        let mut i: usize = 0;
        while i < n
            invariant
                n <= self@.len(),
                n == if limit >= self@.len() { self@.len() as int } else { limit as int },
                i <= n,
                records(r@) == self@.take(i as int),
            decreases n - i,
        {
            let ghost prev = r@;
            let u = self.rows[i].clone();
            assert(u@ == self@[i as int]);
            r.push(u);
            assert(r@ == prev.push(u));
            assert(records(r@) =~= records(prev).push(u@));
            assert(records(r@) =~= self@.take(i + 1));
            i = i + 1;
        }
        assert(records(r@) =~= listed_rows(self@, limit));
        r
    }

    /// Sets the fields that `update` names on the row with id `id`; gives the
    /// number of rows matched, or the store's refusal where the new id is taken.
    /// An update that names no field matches the row and leaves it as it is.
    pub fn update_by_id(&mut self, id: &str, update: &UpdateUserSchema) -> (r: Result<
        u64,
        StoreFailure,
    >)
        requires
            old(self).wf(),
        ensures
            final(self).wf(),
            !holds_id(old(self)@, id@) ==> r == Ok::<u64, StoreFailure>(0)
                && final(self)@ == old(self)@,
            holds_id(old(self)@, id@) && update_collides(old(self)@, id@, update@)
                ==> final(self)@ == old(self)@
                && (r matches Err(StoreFailure::Database { message })
                && occurs_in(DUPLICATE_ENTRY@, message@)),
            holds_id(old(self)@, id@) && !update_collides(old(self)@, id@, update@)
                ==> r == Ok::<u64, StoreFailure>(1)
                && final(self)@ == updated_rows(old(self)@, id@, update@),
    {
        let i = match self.position(id) {
            Some(i) => i,
            None => {
                return Ok(0);
            },
        };
        if let Some(new_id) = &update.id {
            if !same_text(new_id.as_str(), id) {
                if self.position(new_id.as_str()).is_some() {
                    return Err(
                        StoreFailure::Database { message: duplicate_message(new_id.as_str()) },
                    );
                }
            }
        }
        let ghost before = self@;
        let old_row = self.rows[i].clone();
        let row = UserModel {
            id: match &update.id {
                Some(v) => v.clone(),
                None => old_row.id,
            },
            name: match &update.name {
                Some(v) => v.clone(),
                None => old_row.name,
            },
            mail: match &update.mail {
                Some(v) => v.clone(),
                None => old_row.mail,
            },
        };
        assert(row@ == apply_update(before[i as int], update@));
        self.rows.set(i, row);
        assert(self@ =~= updated_rows(before, id@, update@));
        proof {
            let rows = self@;
            assert forall|a: int, b: int|
                0 <= a < rows.len() && 0 <= b < rows.len() && rows[a].id == rows[b].id implies a
                == b by {
                if a != b {
                    if a == i {
                        assert(before[b].id == rows[b].id);
                        if update@.id is None {
                            assert(before[a].id == rows[a].id);
                        }
                    } else if b == i {
                        assert(before[a].id == rows[a].id);
                        if update@.id is None {
                            assert(before[b].id == rows[b].id);
                        }
                    } else {
                        assert(before[a] == rows[a]);
                        assert(before[b] == rows[b]);
                    }
                }
            }
        }
        Ok(1)
    }

    /// Removes the row with id `id`; gives the number of rows removed.
    pub fn delete_by_id(&mut self, id: &str) -> (r: u64)
        requires
            old(self).wf(),
        ensures
            final(self).wf(),
            !holds_id(old(self)@, id@) ==> r == 0 && final(self)@ == old(self)@,
            holds_id(old(self)@, id@) ==> r == 1 && final(self)@ == deleted_rows(old(self)@, id@),
    {
        match self.position(id) {
            Some(i) => {
                let ghost before = self@;
                self.rows.remove(i);
                assert(self@ =~= before.remove(i as int));
                proof {
                    let rows = self@;
                    assert forall|a: int, b: int|
                        0 <= a < rows.len() && 0 <= b < rows.len() && rows[a].id == rows[b].id
                        implies a == b by {
                        let a0 = if a < i { a } else { a + 1 };
                        let b0 = if b < i { b } else { b + 1 };
                        assert(rows[a] == before[a0]);
                        assert(rows[b] == before[b0]);
                    }
                }
                1
            },
            None => 0,
        }
    }
    /// Drops and recreates the table.
    pub fn reset_table(&mut self) -> (r: Result<(), ErrorKinsper>)
        ensures
            final(self).wf(),
            r is Ok,
            final(self)@ == Seq::<UserRecord>::empty(),
    {
        self.reset();
        Ok(())
    }

    /// Stores a new user; a taken id is `AlreadyExists`.
    pub fn add_user(&mut self, user: &CreateUserScheme) -> (r: Result<u64, ErrorKinsper>)
        requires
            old(self).wf(),
        ensures
            final(self).wf(),
            holds_id(old(self)@, user.id@) ==> final(self)@ == old(self)@
                && (r matches Err(e) && e.type_error == TypeErrorKinsper::AlreadyExists),
            !holds_id(old(self)@, user.id@) ==> (r matches Ok(n) && n == 1)
                && final(self)@ == old(self)@.push(
                (UserRecord { id: user.id@, name: user.name@, mail: user.mail@ }),
            ),
    {
        finish_insert(self.insert(user))
    }

    /// The first `limit` users (a default number where none is given), in
    /// table order; an empty result is `NotFound`.
    pub fn get_users(&self, limit: Option<u32>) -> (r: Result<Vec<UserModel>, ErrorKinsper>)
        ensures
            listed_rows(self@, limit.unwrap_or(QUERY_LIMIT)).len() == 0 ==> (r matches Err(e)
                && e.type_error == TypeErrorKinsper::NotFound),
            listed_rows(self@, limit.unwrap_or(QUERY_LIMIT)).len() > 0 ==> (r matches Ok(v)
                && records(v@) == listed_rows(self@, limit.unwrap_or(QUERY_LIMIT))),
    {
        finish_fetch_all(Ok(self.select_limit(query_limit(limit))))
    }

    /// The user with id `id`; an absent one is `NotFound`.
    pub fn get_user_by_id(&self, id: &str) -> (r: Result<UserModel, ErrorKinsper>)
        requires
            self.wf(),
        ensures
            holds_id(self@, id@) ==> (r matches Ok(u) && u@ == row_of(self@, id@)),
            !holds_id(self@, id@) ==> (r matches Err(e) && e.type_error == TypeErrorKinsper::NotFound),
    {
        finish_fetch_one(self.select_by_id(id))
    }

    /// Applies `update` to the user with id `id`; an absent one is `NotFound`,
    /// a new id that another user has is `AlreadyExists`.
    pub fn update_user(&mut self, id: &str, update: &UpdateUserSchema) -> (r: Result<
        u64,
        ErrorKinsper,
    >)
        requires
            old(self).wf(),
        ensures
            final(self).wf(),
            !holds_id(old(self)@, id@) ==> final(self)@ == old(self)@
                && (r matches Err(e) && e.type_error == TypeErrorKinsper::NotFound),
            holds_id(old(self)@, id@) && update_collides(old(self)@, id@, update@)
                ==> final(self)@ == old(self)@
                && (r matches Err(e) && e.type_error == TypeErrorKinsper::AlreadyExists),
            holds_id(old(self)@, id@) && !update_collides(old(self)@, id@, update@)
                ==> (r matches Ok(n) && n == 1)
                && final(self)@ == updated_rows(old(self)@, id@, update@),
    {
        finish_matched(self.update_by_id(id, update))
    }

    /// Removes the user with id `id`; an absent one is `NotFound`.
    pub fn delete_user(&mut self, id: &str) -> (r: Result<u64, ErrorKinsper>)
        requires
            old(self).wf(),
        ensures
            final(self).wf(),
            !holds_id(old(self)@, id@) ==> final(self)@ == old(self)@
                && (r matches Err(e) && e.type_error == TypeErrorKinsper::NotFound),
            holds_id(old(self)@, id@) ==> (r matches Ok(n) && n == 1)
                && final(self)@ == deleted_rows(old(self)@, id@),
    {
        finish_matched(Ok(self.delete_by_id(id)))
    }
}

} // verus!
