use vstd::prelude::*;

use crate::data::handler::{records, QUERY_LIMIT};
use crate::data::model::{UserModel, UserRecord};
use crate::data::scheme::{opt_view, CreateUserScheme, UpdateUserSchema, UpdateView};
use crate::data::table::{
    deleted_rows, holds_id, listed_rows, row_of, update_collides, updated_rows, UserTable,
};
use crate::errors::{ErrorKinsper, TypeErrorKinsper};
use crate::{mail_accepted, regex_is_valid, validate_mail, MAIL_PATTERN};

verus! {

/// What the mail check gives for `mail`.
pub open spec fn mail_check(mail: Seq<char>) -> Result<(), TypeErrorKinsper> {
    if mail_accepted(mail) {
        Ok(())
    } else if regex_is_valid(MAIL_PATTERN@) {
        Err(TypeErrorKinsper::InvalidEmail)
    } else {
        Err(TypeErrorKinsper::InternalValidationError)
    }
}

/// Whether `r` is the outcome `o`: success, or a failure of that kind.
pub open spec fn reports<T>(r: Result<T, ErrorKinsper>, o: Result<(), TypeErrorKinsper>) -> bool {
    match o {
        Ok(_) => r is Ok,
        Err(k) => r matches Err(e) && e.type_error == k,
    }
}

/// The outcome of fetching one user.
pub open spec fn get_outcome(rows: Seq<UserRecord>, id: Option<Seq<char>>) -> Result<
    UserRecord,
    TypeErrorKinsper,
> {
    match id {
        None => Err(TypeErrorKinsper::InvalidId),
        Some(i) => if holds_id(rows, i) {
            Ok(row_of(rows, i))
        } else {
            Err(TypeErrorKinsper::NotFound)
        },
    }
}

/// The outcome of a listing: the first rows in store order, never an empty success.
pub open spec fn list_outcome(rows: Seq<UserRecord>, limit: Option<u32>) -> Result<
    Seq<UserRecord>,
    TypeErrorKinsper,
> {
    let n = match limit {
        Some(n) => n,
        None => QUERY_LIMIT,
    };
    if listed_rows(rows, n).len() == 0 {
        Err(TypeErrorKinsper::NotFound)
    } else {
        Ok(listed_rows(rows, n))
    }
}

/// The outcome of a creation; the mail is checked first, then the id.
pub open spec fn create_outcome(
    rows: Seq<UserRecord>,
    id: Option<Seq<char>>,
    mail: Seq<char>,
) -> Result<(), TypeErrorKinsper> {
    if !mail_accepted(mail) {
        mail_check(mail)
    } else {
        match id {
            None => Err(TypeErrorKinsper::InvalidId),
            Some(i) => if holds_id(rows, i) {
                Err(TypeErrorKinsper::AlreadyExists)
            } else {
                Ok(())
            },
        }
    }
}

/// The rows after a creation.
pub open spec fn after_create(
    rows: Seq<UserRecord>,
    id: Option<Seq<char>>,
    name: Seq<char>,
    mail: Seq<char>,
) -> Seq<UserRecord> {
    match (create_outcome(rows, id, mail), id) {
        (Ok(_), Some(i)) => rows.push(UserRecord { id: i, name, mail }),
        _ => rows,
    }
}

/// The finalized update that sets the name alone.
pub open spec fn name_update_view(name: Seq<char>) -> UpdateView {
    UpdateView { id: None, name: Some(name), mail: None, query_set: "name = ?"@ }
}

/// The finalized update that sets the mail alone.
pub open spec fn mail_update_view(mail: Seq<char>) -> UpdateView {
    UpdateView { id: None, name: None, mail: Some(mail), query_set: "mail = ?"@ }
}

/// The outcome of applying the update `u` to the row with id `id`.
pub open spec fn update_outcome(
    rows: Seq<UserRecord>,
    id: Option<Seq<char>>,
    u: UpdateView,
) -> Result<(), TypeErrorKinsper> {
    match id {
        None => Err(TypeErrorKinsper::InvalidId),
        Some(i) => if !holds_id(rows, i) {
            Err(TypeErrorKinsper::NotFound)
        } else if update_collides(rows, i, u) {
            Err(TypeErrorKinsper::AlreadyExists)
        } else {
            Ok(())
        },
    }
}

/// The rows after applying the update `u` to the row with id `id`.
pub open spec fn after_update(rows: Seq<UserRecord>, id: Option<Seq<char>>, u: UpdateView) -> Seq<
    UserRecord,
> {
    match (update_outcome(rows, id, u), id) {
        (Ok(_), Some(i)) => updated_rows(rows, i, u),
        _ => rows,
    }
}

/// The outcome of a mail update; the id is checked first, then the mail.
pub open spec fn update_mail_outcome(
    rows: Seq<UserRecord>,
    id: Option<Seq<char>>,
    mail: Seq<char>,
) -> Result<(), TypeErrorKinsper> {
    if id is None {
        Err(TypeErrorKinsper::InvalidId)
    } else if !mail_accepted(mail) {
        mail_check(mail)
    } else {
        update_outcome(rows, id, mail_update_view(mail))
    }
}

/// The rows after a mail update.
pub open spec fn after_update_mail(
    rows: Seq<UserRecord>,
    id: Option<Seq<char>>,
    mail: Seq<char>,
) -> Seq<UserRecord> {
    if update_mail_outcome(rows, id, mail) is Ok {
        after_update(rows, id, mail_update_view(mail))
    } else {
        rows
    }
}

/// The outcome of a deletion.
pub open spec fn delete_outcome(rows: Seq<UserRecord>, id: Option<Seq<char>>) -> Result<
    (),
    TypeErrorKinsper,
> {
    match id {
        None => Err(TypeErrorKinsper::InvalidId),
        Some(i) => if holds_id(rows, i) {
            Ok(())
        } else {
            Err(TypeErrorKinsper::NotFound)
        },
    }
}

/// The rows after a deletion.
pub open spec fn after_delete(rows: Seq<UserRecord>, id: Option<Seq<char>>) -> Seq<UserRecord> {
    match (delete_outcome(rows, id), id) {
        (Ok(_), Some(i)) => deleted_rows(rows, i),
        _ => rows,
    }
}

/// The id of a request, which must be present.
pub fn id_to_str(id: &Option<String>) -> (r: Result<String, ErrorKinsper>)
    ensures
        match id {
            Some(s) => r matches Ok(v) && v@ == s@,
            None => r matches Err(e) && e.type_error == TypeErrorKinsper::InvalidId
                && e.message@ == "Invalid id"@,
        },
{
    match id {
        Some(s) => Ok(s.clone()),
        None => Err(ErrorKinsper::new(TypeErrorKinsper::InvalidId, String::from_str("Invalid id"))),
    }
}

/// The payload of a creation request: the mail is checked, then the id.
pub fn create_payload(id: &Option<String>, name: &String, mail: &String) -> (r: Result<
    CreateUserScheme,
    ErrorKinsper,
>)
    ensures
        !mail_accepted(mail@) ==> reports(r, mail_check(mail@)),
        mail_accepted(mail@) && id is None ==> reports(r, Err(TypeErrorKinsper::InvalidId)),
        mail_accepted(mail@) && id is Some ==> (r matches Ok(p) && p.id@ == id.unwrap()@
            && p.name@ == name@ && p.mail@ == mail@),
{
    if let Err(e) = validate_mail(mail.as_str()) {
        return Err(e);
    }
    match id_to_str(id) {
        Ok(i) => Ok(CreateUserScheme { id: i, name: name.clone(), mail: mail.clone() }),
        Err(e) => Err(e),
    }
}

/// The finalized update that sets the name alone.
pub fn name_update(name: String) -> (r: Result<UpdateUserSchema, ErrorKinsper>)
    ensures
        r matches Ok(u) && u@ == name_update_view(name@),
{
    let r = UpdateUserSchema::new().with_name(name).finalize();
    proof {
        reveal_strlit("name = ?");
    }
    assert(r matches Ok(u) && u@ =~= name_update_view(name@));
    r
}

/// The finalized update that sets the mail alone, once the mail is checked.
pub fn mail_update(mail: String) -> (r: Result<UpdateUserSchema, ErrorKinsper>)
    ensures
        mail_accepted(mail@) ==> (r matches Ok(u) && u@ == mail_update_view(mail@)),
        !mail_accepted(mail@) ==> reports(r, mail_check(mail@)),
{
    if let Err(e) = validate_mail(mail.as_str()) {
        return Err(e);
    }
    let r = UpdateUserSchema::new().with_mail(mail).finalize();
    proof {
        reveal_strlit("mail = ?");
    }
    assert(r matches Ok(u) && u@ =~= mail_update_view(mail@));
    r
}

/// The user service over an in-process table: each operation validates its
/// request, runs one statement on the table and shapes the outcome.
pub struct MyUserService {
    db_context: UserTable,
}

impl View for MyUserService {
    type V = Seq<UserRecord>;

    closed spec fn view(&self) -> Seq<UserRecord> {
        self.db_context@
    }
}

impl MyUserService {
    pub closed spec fn wf(&self) -> bool {
        self.db_context.wf()
    }

    /// A service over an empty table.
    pub fn new() -> (r: Self)
        ensures
            r.wf(),
            r@ == Seq::<UserRecord>::empty(),
    {
        MyUserService { db_context: UserTable::new() }
    }

    pub fn get_user(&self, id: &Option<String>) -> (r: Result<UserModel, ErrorKinsper>)
        requires
            self.wf(),
        ensures
            match get_outcome(self@, opt_view(*id)) {
                Ok(row) => r matches Ok(u) && u@ == row,
                Err(k) => r matches Err(e) && e.type_error == k,
            },
    {
        let id = match id_to_str(id) {
            Ok(i) => i,
            Err(e) => {
                return Err(e);
            },
        };
        self.db_context.get_user_by_id(id.as_str())
    }

    /// The first `limit` users (a default number where none is given), in store order.
    pub fn get_all_users(&self, limit: Option<u32>) -> (r: Result<Vec<UserModel>, ErrorKinsper>)
        ensures
            match list_outcome(self@, limit) {
                Ok(rows) => r matches Ok(v) && records(v@) == rows,
                Err(k) => r matches Err(e) && e.type_error == k,
            },
    {
        self.db_context.get_users(limit)
    }

    pub fn create_user(&mut self, id: &Option<String>, name: &String, mail: &String) -> (r: Result<
        (),
        ErrorKinsper,
    >)
        requires
            old(self).wf(),
        ensures
            final(self).wf(),
            reports(r, create_outcome(old(self)@, opt_view(*id), mail@)),
            final(self)@ == after_create(old(self)@, opt_view(*id), name@, mail@),
    {
        let user = match create_payload(id, name, mail) {
            Ok(u) => u,
            Err(e) => {
                return Err(e);
            },
        };
        match self.db_context.add_user(&user) {
            Ok(_) => Ok(()),
            Err(e) => Err(e),
        }
    }

    /// Applies a finalized update to the row with id `id`.
    fn apply(&mut self, id: &String, update: &UpdateUserSchema) -> (r: Result<(), ErrorKinsper>)
        requires
            old(self).wf(),
        ensures
            final(self).wf(),
            reports(r, update_outcome(old(self)@, Some(id@), update@)),
            final(self)@ == after_update(old(self)@, Some(id@), update@),
    {
        match self.db_context.update_user(id.as_str(), update) {
            Ok(_) => Ok(()),
            Err(e) => Err(e),
        }
    }

    pub fn update_name_user(&mut self, id: &Option<String>, name: String) -> (r: Result<
        (),
        ErrorKinsper,
    >)
        requires
            old(self).wf(),
        ensures
            final(self).wf(),
            reports(r, update_outcome(old(self)@, opt_view(*id), name_update_view(name@))),
            final(self)@ == after_update(old(self)@, opt_view(*id), name_update_view(name@)),
    {
        let id = match id_to_str(id) {
            Ok(i) => i,
            Err(e) => {
                return Err(e);
            },
        };
        let update = match name_update(name) {
            Ok(u) => u,
            Err(e) => {
                return Err(e);
            },
        };
        self.apply(&id, &update)
    }

    pub fn update_mail_user(&mut self, id: &Option<String>, mail: String) -> (r: Result<
        (),
        ErrorKinsper,
    >)
        requires
            old(self).wf(),
        ensures
            final(self).wf(),
            reports(r, update_mail_outcome(old(self)@, opt_view(*id), mail@)),
            final(self)@ == after_update_mail(old(self)@, opt_view(*id), mail@),
    {
        let id = match id_to_str(id) {
            Ok(i) => i,
            Err(e) => {
                return Err(e);
            },
        };
        let update = match mail_update(mail) {
            Ok(u) => u,
            Err(e) => {
                return Err(e);
            },
        };
        self.apply(&id, &update)
    }

    pub fn delete_user(&mut self, id: &Option<String>) -> (r: Result<(), ErrorKinsper>)
        requires
            old(self).wf(),
        ensures
            final(self).wf(),
            reports(r, delete_outcome(old(self)@, opt_view(*id))),
            final(self)@ == after_delete(old(self)@, opt_view(*id)),
    {
        let id = match id_to_str(id) {
            Ok(i) => i,
            Err(e) => {
                return Err(e);
            },
        };
        match self.db_context.delete_user(id.as_str()) {
            Ok(_) => Ok(()),
            Err(e) => Err(e),
        }
    }

    /// Drops and recreates the table: no row is left.
    pub fn reset_user_table(&mut self) -> (r: Result<(), ErrorKinsper>)
        ensures
            final(self).wf(),
            r is Ok,
            final(self)@ == Seq::<UserRecord>::empty(),
    {
        self.db_context.reset_table()
    }
}

} // verus!
