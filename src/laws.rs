//! Properties of the service that relate several requests, stated over the
//! table model that `AuthorTable::serve` follows.
use vstd::prelude::*;
use crate::model::{AuthorView, CreateAuthorDto, UpdateAuthorDto};
use crate::validation::{email_accepted, name_ok};
use crate::handlers::{merged, BAD_REQUEST, CONFLICT, NOT_FOUND, NO_CONTENT, OK};
use crate::table::{
    Request, TableView, MAX_ID, email_held, index_of, lemma_index_of, serve_next, serve_status, table_wf,
};

verus! {

/// A get, delete or partial update with an identifier below 1 is answered
/// with 400 and leaves the table as it was.
pub proof fn lemma_nonpositive_id_rejected(t: TableView, id: i32, dto: UpdateAuthorDto)
    requires
        id < 1,
    ensures
        serve_status(t, Request::Get { id }) == BAD_REQUEST,
        serve_next(t, Request::Get { id }) == t,
        serve_status(t, Request::Delete { id }) == BAD_REQUEST,
        serve_next(t, Request::Delete { id }) == t,
        serve_status(t, Request::Patch { id, dto }) == BAD_REQUEST,
        serve_next(t, Request::Patch { id, dto }) == t,
{
}

/// A create whose name is not 2 to 60 characters long, or whose email is
/// not a valid address, is answered with 400 and inserts nothing.
pub proof fn lemma_invalid_create_rejected(t: TableView, dto: CreateAuthorDto)
    requires
        !name_ok(dto.name@) || !email_accepted(dto.email@),
    ensures
        serve_status(t, Request::Create { dto }) == BAD_REQUEST,
        serve_next(t, Request::Create { dto }) == t,
{
}

/// Two valid creates with the same email: the second is answered with 409,
/// and afterwards exactly one row holds that email.
pub proof fn lemma_duplicate_email_conflicts(t: TableView, a: CreateAuthorDto, b: CreateAuthorDto)
    requires
        table_wf(t),
        t.next_id < MAX_ID,
        a.email@ == b.email@,
        name_ok(a.name@),
        email_accepted(a.email@),
        name_ok(b.name@),
    ensures
        serve_status(serve_next(t, Request::Create { dto: a }), Request::Create { dto: b })
            == CONFLICT,
        ({
            let t2 = serve_next(
                serve_next(t, Request::Create { dto: a }),
                Request::Create { dto: b },
            );
            &&& exists|i: int| 0 <= i < t2.rows.len() && t2.rows[i].email == a.email@
            &&& forall|i: int, j: int|
                0 <= i < t2.rows.len() && 0 <= j < t2.rows.len() && t2.rows[i].email == a.email@
                    && t2.rows[j].email == a.email@ ==> i == j
        }),
{
    let e = a.email@;
    let t1 = serve_next(t, Request::Create { dto: a });
    if email_held(t.rows, e, 0) {
        assert(t1 == t);
    } else {
        let n = t.rows.len() as int;
        assert(t1.rows == t.rows.push(crate::table::new_row(t, a)));
        assert(t1.rows[n].email == e && t1.rows[n].id != 0);
        assert(email_held(t1.rows, b.email@, 0));
        assert forall|i: int, j: int|
            0 <= i < t1.rows.len() && 0 <= j < t1.rows.len() && t1.rows[i].email == e
                && t1.rows[j].email == e implies i == j by {
            if i < n {
                assert(t1.rows[i] == t.rows[i]);
                assert(t.rows[i].id >= 1);
            }
            if j < n {
                assert(t1.rows[j] == t.rows[j]);
                assert(t.rows[j].id >= 1);
            }
        }
    }
}

/// Deleting an identifier that no row has is answered with 404.
pub proof fn lemma_delete_missing(t: TableView, id: i32)
    requires
        id >= 1,
        forall|i: int| 0 <= i < t.rows.len() ==> t.rows[i].id != id,
    ensures
        serve_status(t, Request::Delete { id }) == NOT_FOUND,
        serve_next(t, Request::Delete { id }) == t,
{
}

/// Deleting an existing row twice in a row is answered with 204, then 404.
pub proof fn lemma_delete_twice(t: TableView, id: i32)
    requires
        table_wf(t),
        id >= 1,
        exists|i: int| 0 <= i < t.rows.len() && t.rows[i].id == id,
    ensures
        serve_status(t, Request::Delete { id }) == NO_CONTENT,
        serve_status(serve_next(t, Request::Delete { id }), Request::Delete { id }) == NOT_FOUND,
{
    let k = choose|i: int| 0 <= i < t.rows.len() && t.rows[i].id == id;
    lemma_index_of(t.rows, id as int, k);
    let t1 = serve_next(t, Request::Delete { id });
    assert(t1.rows == t.rows.remove(k));
    assert forall|i: int| 0 <= i < t1.rows.len() implies t1.rows[i].id != id by {
        if i < k {
            assert(t1.rows[i] == t.rows[i]);
            assert(t.rows[i].id < t.rows[k].id);
        } else {
            assert(t1.rows[i] == t.rows[i + 1]);
            assert(t.rows[k].id < t.rows[i + 1].id);
        }
    }
}

/// A partial update that supplies only a valid name is answered with 204; a
/// get afterwards is answered with 200 and shows the new name beside the
/// email and date of birth that the row had.
pub proof fn lemma_patch_name_only(t: TableView, id: i32, dto: UpdateAuthorDto)
    requires
        table_wf(t),
        id >= 1,
        exists|i: int| 0 <= i < t.rows.len() && t.rows[i].id == id,
        dto.name matches Some(n) && name_ok(n@),
        dto.email is None,
        dto.date_of_birth is None,
    ensures
        serve_status(t, Request::Patch { id, dto }) == NO_CONTENT,
        ({
            let before = t.rows[index_of(t.rows, id as int)];
            let t2 = serve_next(t, Request::Patch { id, dto });
            &&& serve_status(t2, Request::Get { id }) == OK
            &&& t2.rows[index_of(t2.rows, id as int)] == (AuthorView {
                id: id as int,
                name: dto.name->Some_0@,
                email: before.email,
                date_of_birth: before.date_of_birth,
            })
        }),
{
    let k = choose|i: int| 0 <= i < t.rows.len() && t.rows[i].id == id;
    lemma_index_of(t.rows, id as int, k);
    let m = merged(t.rows[k], dto);
    assert(!email_held(t.rows, m.email, id as int)) by {
        if email_held(t.rows, m.email, id as int) {
            let j = choose|j: int|
                0 <= j < t.rows.len() && t.rows[j].email == m.email && t.rows[j].id != id;
            assert(j != k);
        }
    }
    let t2 = serve_next(t, Request::Patch { id, dto });
    assert(t2.rows == t.rows.update(k, m));
    assert forall|i: int, j: int| 0 <= i < j < t2.rows.len() implies t2.rows[i].id
        < t2.rows[j].id by {
        assert(t2.rows[i].id == t.rows[i].id && t2.rows[j].id == t.rows[j].id);
    }
    lemma_index_of(t2.rows, id as int, k);
}

} // verus!
