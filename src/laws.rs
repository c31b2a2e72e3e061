use vstd::prelude::*;

use crate::data::model::UserRecord;
use crate::data::table::{holds_id, ids_unique, index_of, lemma_index_of, row_of};
use crate::errors::TypeErrorKinsper;
use crate::service::{
    after_create, after_delete, after_update, create_outcome, delete_outcome, get_outcome,
    list_outcome, name_update_view, update_outcome,
};
use crate::{mail_accepted, regex_is_valid, MAIL_PATTERN};

verus! {

/// A user that is not stored is not found.
pub proof fn law_get_absent_not_found(rows: Seq<UserRecord>, id: Seq<char>)
    requires
        !holds_id(rows, id),
    ensures
        get_outcome(rows, Some(id)) == Err::<UserRecord, TypeErrorKinsper>(
            TypeErrorKinsper::NotFound,
        ),
{
}

/// Creating a user with a fresh id and a well-formed mail succeeds, and
/// fetching that id afterwards gives back the same id, name and mail.
pub proof fn law_create_then_get(
    rows: Seq<UserRecord>,
    id: Seq<char>,
    name: Seq<char>,
    mail: Seq<char>,
)
    requires
        ids_unique(rows),
        !holds_id(rows, id),
        mail_accepted(mail),
    ensures
        create_outcome(rows, Some(id), mail) == Ok::<(), TypeErrorKinsper>(()),
        get_outcome(after_create(rows, Some(id), name, mail), Some(id)) == Ok::<
            UserRecord,
            TypeErrorKinsper,
        >(UserRecord { id, name, mail }),
{
    let after = after_create(rows, Some(id), name, mail);
    assert(after == rows.push(UserRecord { id, name, mail }));
    assert(ids_unique(after)) by {
        assert forall|i: int, j: int|
            0 <= i < after.len() && 0 <= j < after.len() && after[i].id == after[j].id implies i
            == j by {
            if i < rows.len() && j == rows.len() {
                assert(rows[i].id == id);
            } else if j < rows.len() && i == rows.len() {
                assert(rows[j].id == id);
            }
        }
    }
    lemma_index_of(after, id, rows.len() as int);
}

/// A creation with a malformed mail is refused for its mail and stores
/// nothing: an id that was absent is still not found.
pub proof fn law_malformed_mail_stores_nothing(
    rows: Seq<UserRecord>,
    id: Option<Seq<char>>,
    name: Seq<char>,
    mail: Seq<char>,
)
    requires
        !mail_accepted(mail),
    ensures
        create_outcome(rows, id, mail) == Err::<(), TypeErrorKinsper>(
            if regex_is_valid(MAIL_PATTERN@) {
                TypeErrorKinsper::InvalidEmail
            } else {
                TypeErrorKinsper::InternalValidationError
            },
        ),
        after_create(rows, id, name, mail) == rows,
        id matches Some(i) && !holds_id(rows, i) ==> get_outcome(
            after_create(rows, id, name, mail),
            id,
        ) == Err::<UserRecord, TypeErrorKinsper>(TypeErrorKinsper::NotFound),
{
}

/// Renaming a stored user changes its name and nothing else; renaming an
/// absent one is `NotFound`.
pub proof fn law_update_name_only_name(rows: Seq<UserRecord>, id: Seq<char>, name: Seq<char>)
    requires
        ids_unique(rows),
    ensures
        holds_id(rows, id) ==> update_outcome(rows, Some(id), name_update_view(name)) == Ok::<
            (),
            TypeErrorKinsper,
        >(()) && get_outcome(after_update(rows, Some(id), name_update_view(name)), Some(id))
            == Ok::<UserRecord, TypeErrorKinsper>(
            UserRecord { name, ..row_of(rows, id) },
        ),
        !holds_id(rows, id) ==> update_outcome(rows, Some(id), name_update_view(name)) == Err::<
            (),
            TypeErrorKinsper,
        >(TypeErrorKinsper::NotFound),
{
    if holds_id(rows, id) {
        let k = index_of(rows, id);
        let after = after_update(rows, Some(id), name_update_view(name));
        assert(after == rows.update(k, UserRecord { name, ..rows[k] }));
        assert(ids_unique(after)) by {
            assert forall|i: int, j: int|
                0 <= i < after.len() && 0 <= j < after.len() && after[i].id == after[j].id
                implies i == j by {
                assert(after[i].id == rows[i].id);
                assert(after[j].id == rows[j].id);
            }
        }
        lemma_index_of(after, id, k);
    }
}

/// A listing with a limit of `n`, where at least `n` users are stored, gives
/// exactly the first `n` of them in store order; on an empty store a listing
/// is `NotFound`, never an empty success.
pub proof fn law_list_limit(rows: Seq<UserRecord>, n: u32, limit: Option<u32>)
    ensures
        0 < n <= rows.len() ==> list_outcome(rows, Some(n)) == Ok::<
            Seq<UserRecord>,
            TypeErrorKinsper,
        >(rows.take(n as int)) && rows.take(n as int).len() == n,
        rows.len() == 0 ==> list_outcome(rows, limit) == Err::<Seq<UserRecord>, TypeErrorKinsper>(
            TypeErrorKinsper::NotFound,
        ),
{
    if 0 < n <= rows.len() {
        if n == rows.len() {
            assert(rows.take(n as int) =~= rows);
        }
    }
}

/// Deleting a stored user succeeds and the user is then not found; deleting
/// an absent one is `NotFound`.
pub proof fn law_delete_then_get(rows: Seq<UserRecord>, id: Seq<char>)
    requires
        ids_unique(rows),
    ensures
        holds_id(rows, id) ==> delete_outcome(rows, Some(id)) == Ok::<(), TypeErrorKinsper>(())
            && get_outcome(after_delete(rows, Some(id)), Some(id)) == Err::<
            UserRecord,
            TypeErrorKinsper,
        >(TypeErrorKinsper::NotFound),
        !holds_id(rows, id) ==> delete_outcome(rows, Some(id)) == Err::<(), TypeErrorKinsper>(
            TypeErrorKinsper::NotFound,
        ),
{
    if holds_id(rows, id) {
        let k = index_of(rows, id);
        let after = after_delete(rows, Some(id));
        assert(after == rows.remove(k));
        if holds_id(after, id) {
            let j = choose|j: int| 0 <= j < after.len() && #[trigger] after[j].id == id;
            let j0 = if j < k { j } else { j + 1 };
            assert(after[j] == rows[j0]);
        }
    }
}

} // verus!
