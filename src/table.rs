//! An in-memory author table that plays the store's part: one method per
//! statement, a unique constraint on the email, identifiers handed out in
//! increasing order and never reused. `serve` runs a request through the
//! handlers against it.
use vstd::prelude::*;
use crate::model::{Author, AuthorView, CreateAuthorDto, UpdateAuthorDto};
use crate::validation::{create_violations, update_violations};
use crate::handlers::{
    Action, Body, Reply, StoreError, is_conflict, merged, get_all, get_by_id, get_by_id_reply, create,
    create_reply, delete, delete_reply, patch_update, patch_update_fetched, patch_update_reply,
    OK, CREATED, NO_CONTENT, BAD_REQUEST, NOT_FOUND, CONFLICT, INTERNAL_SERVER_ERROR,
};

verus! {

/// The largest identifier the table hands out.
pub const MAX_ID: i32 = 2147483647;

/// Mathematical view of the table: its rows in order of insertion and the
/// identifier that the next insert gets.
pub struct TableView {
    pub rows: Seq<AuthorView>,
    pub next_id: int,
}

/// Identifiers are positive, increase along the rows and stay below
/// `next_id`; no two rows share an email.
pub open spec fn table_wf(t: TableView) -> bool {
    &&& 1 <= t.next_id <= MAX_ID
    &&& forall|i: int| 0 <= i < t.rows.len() ==> 1 <= #[trigger] t.rows[i].id < t.next_id
    &&& forall|i: int, j: int| 0 <= i < j < t.rows.len() ==> t.rows[i].id < t.rows[j].id
    &&& forall|i: int, j: int|
        0 <= i < t.rows.len() && 0 <= j < t.rows.len() && i != j
            ==> t.rows[i].email != t.rows[j].email
}

/// Position of the row with identifier `id`, or -1.
pub open spec fn index_of(rows: Seq<AuthorView>, id: int) -> int {
    if exists|i: int| 0 <= i < rows.len() && rows[i].id == id {
        choose|i: int| 0 <= i < rows.len() && rows[i].id == id
    } else {
        -1
    }
}

/// Whether a row other than the one with identifier `except` holds `email`.
pub open spec fn email_held(rows: Seq<AuthorView>, email: Seq<char>, except: int) -> bool {
    exists|i: int| 0 <= i < rows.len() && rows[i].email == email && rows[i].id != except
}

/// The row that an insert of `dto` adds.
pub open spec fn new_row(t: TableView, dto: CreateAuthorDto) -> AuthorView {
    AuthorView { id: t.next_id, name: dto.name@, email: dto.email@, date_of_birth: dto.date_of_birth }
}

/// A request to the service.
#[derive(Clone, Debug)]
pub enum Request {
    List,
    Get { id: i32 },
    Create { dto: CreateAuthorDto },
    Patch { id: i32, dto: UpdateAuthorDto },
    Delete { id: i32 },
}

/// The status with which the service answers `q` on table `t`.
pub open spec fn serve_status(t: TableView, q: Request) -> u16 {
    match q {
        Request::List => OK,
        Request::Get { id } => if id < 1 {
            BAD_REQUEST
        } else if index_of(t.rows, id as int) >= 0 {
            OK
        } else {
            NOT_FOUND
        },
        Request::Create { dto } => if create_violations(dto).len() != 0 {
            BAD_REQUEST
        } else if email_held(t.rows, dto.email@, 0) {
            CONFLICT
        } else if t.next_id >= MAX_ID {
            INTERNAL_SERVER_ERROR
        } else {
            CREATED
        },
        Request::Patch { id, dto } => if id < 1 || update_violations(dto).len() != 0 {
            BAD_REQUEST
        } else if index_of(t.rows, id as int) < 0 {
            NOT_FOUND
        } else if email_held(
            t.rows,
            merged(t.rows[index_of(t.rows, id as int)], dto).email,
            id as int,
        ) {
            CONFLICT
        } else {
            NO_CONTENT
        },
        Request::Delete { id } => if id < 1 {
            BAD_REQUEST
        } else if index_of(t.rows, id as int) >= 0 {
            NO_CONTENT
        } else {
            NOT_FOUND
        },
    }
}

/// The table after the service answers `q` on table `t`.
pub open spec fn serve_next(t: TableView, q: Request) -> TableView {
    match q {
        Request::Create { dto } => if serve_status(t, q) == CREATED {
            TableView { rows: t.rows.push(new_row(t, dto)), next_id: t.next_id + 1 }
        } else {
            t
        },
        Request::Patch { id, dto } => if serve_status(t, q) == NO_CONTENT {
            let i = index_of(t.rows, id as int);
            TableView { rows: t.rows.update(i, merged(t.rows[i], dto)), next_id: t.next_id }
        } else {
            t
        },
        Request::Delete { id } => if serve_status(t, q) == NO_CONTENT {
            TableView { rows: t.rows.remove(index_of(t.rows, id as int)), next_id: t.next_id }
        } else {
            t
        },
        _ => t,
    }
}

/// With increasing identifiers, `index_of` finds the one row that has `id`.
pub proof fn lemma_index_of(rows: Seq<AuthorView>, id: int, k: int)
    requires
        forall|i: int, j: int| 0 <= i < j < rows.len() ==> rows[i].id < rows[j].id,
        0 <= k < rows.len(),
        rows[k].id == id,
    ensures
        index_of(rows, id) == k,
{
    let c = index_of(rows, id);
    assert(0 <= c < rows.len() && rows[c].id == id);
    if c < k {
        assert(rows[c].id < rows[k].id);
    } else if k < c {
        assert(rows[k].id < rows[c].id);
    }
}

/// The reply in a branch that the handlers' contracts rule out.
fn unreachable_step() -> (r: Reply) {
    Reply { status: INTERNAL_SERVER_ERROR, body: Body::Empty }
}

fn unique_violation() -> (r: StoreError)
    ensures
        is_conflict(r),
{
    StoreError::Database {
        constraint: Some(String::from_str("authors_email_key")),
        text: String::from_str("duplicate key value violates unique constraint \"authors_email_key\""),
    }
}

pub struct AuthorTable {
    rows: Vec<Author>,
    next_id: i32,
}

impl View for AuthorTable {
    type V = TableView;

    closed spec fn view(&self) -> TableView {
        TableView { rows: self.rows@.map_values(|a: Author| a@), next_id: self.next_id as int }
    }
}

impl AuthorTable {
    /// An empty table whose first identifier is 1.
    pub fn new() -> (r: AuthorTable)
        ensures
            r@.rows.len() == 0,
            r@.next_id == 1,
            table_wf(r@),
    {
        AuthorTable { rows: Vec::new(), next_id: 1 }
    }

    fn find(&self, id: i32) -> (r: Option<usize>)
        requires
            table_wf(self@),
        ensures
            index_of(self@.rows, id as int) < 0 <==> r is None,
            r matches Some(i) ==> i == index_of(self@.rows, id as int) && i < self.rows@.len(),
    {
        let mut i: usize = 0;
        while i < self.rows.len()
            invariant
                table_wf(self@),
                i <= self.rows@.len(),
                forall|k: int| 0 <= k < i ==> self@.rows[k].id != id,
            decreases self.rows@.len() - i,
        {
            if self.rows[i].id == id {
                proof {
                    assert(self@.rows[i as int].id == id);
                    lemma_index_of(self@.rows, id as int, i as int);
                }
                return Some(i);
            }
            i += 1;
        }
        assert(!exists|k: int| 0 <= k < self@.rows.len() && self@.rows[k].id == id);
        None
    }

    fn email_taken(&self, email: &String, except: i32) -> (r: bool)
        ensures
            r == email_held(self@.rows, email@, except as int),
    {
        let mut i: usize = 0;
        while i < self.rows.len()
            invariant
                i <= self.rows@.len(),
                forall|k: int|
                    0 <= k < i ==> !(self@.rows[k].email == email@ && self@.rows[k].id != except),
            decreases self.rows@.len() - i,
        {
            if self.rows[i].id != except && self.rows[i].email == *email {
                assert(self@.rows[i as int].email == email@);
                return true;
            }
            i += 1;
        }
        false
    }

    /// Inserts a row with the payload's fields and the next identifier; a
    /// taken email violates the unique constraint.
    pub fn insert(&mut self, dto: CreateAuthorDto) -> (r: Result<i32, StoreError>)
        requires
            table_wf(old(self)@),
        ensures
            table_wf(final(self)@),
            email_held(old(self)@.rows, dto.email@, 0) ==> (r matches Err(e) && is_conflict(e))
                && final(self)@ == old(self)@,
            !email_held(old(self)@.rows, dto.email@, 0) && old(self)@.next_id >= MAX_ID ==> (
            r matches Err(e) && !is_conflict(e)) && final(self)@ == old(self)@,
            !email_held(old(self)@.rows, dto.email@, 0) && old(self)@.next_id < MAX_ID ==> r == Ok::<
                i32,
                StoreError,
            >(old(self)@.next_id as i32) && final(self)@ == (TableView {
                rows: old(self)@.rows.push(new_row(old(self)@, dto)),
                next_id: old(self)@.next_id + 1,
            }),
    {
        if self.email_taken(&dto.email, 0) {
            return Err(unique_violation());
        }
        if self.next_id == MAX_ID {
            return Err(StoreError::Other { text: String::from_str("no identifier left for a new row") });
        }
        let id = self.next_id;
        let ghost o = self@;
        let row = Author { id, name: dto.name, email: dto.email, date_of_birth: dto.date_of_birth };
        self.rows.push(row);
        self.next_id = id + 1;
        proof {
            let n = self@;
            assert(n.rows =~= o.rows.push(new_row(o, dto)));
            assert forall|i: int, j: int|
                0 <= i < n.rows.len() && 0 <= j < n.rows.len() && i != j
                    implies n.rows[i].email != n.rows[j].email by {
                if j == o.rows.len() as int {
                    assert(!(o.rows[i].email == dto.email@ && o.rows[i].id != 0));
                } else if i == o.rows.len() as int {
                    assert(!(o.rows[j].email == dto.email@ && o.rows[j].id != 0));
                }
            }
        }
        Ok(id)
    }

    /// Deletes the row with identifier `id`; the result is the number of
    /// rows removed.
    pub fn remove(&mut self, id: i32) -> (r: Result<u64, StoreError>)
        requires
            table_wf(old(self)@),
        ensures
            table_wf(final(self)@),
            index_of(old(self)@.rows, id as int) < 0 ==> r == Ok::<u64, StoreError>(0)
                && final(self)@ == old(self)@,
            index_of(old(self)@.rows, id as int) >= 0 ==> r == Ok::<u64, StoreError>(1)
                && final(self)@ == (TableView {
                rows: old(self)@.rows.remove(index_of(old(self)@.rows, id as int)),
                next_id: old(self)@.next_id,
            }),
    {
        match self.find(id) {
            None => Ok(0),
            Some(i) => {
                let ghost o = self@;
                let _gone = self.rows.remove(i);
                proof {
                    let n = self@;
                    assert(n.rows =~= o.rows.remove(i as int));
                    assert forall|a: int, b: int| 0 <= a < b < n.rows.len() implies n.rows[a].id
                        < n.rows[b].id by {
                        let a2 = if a < i { a } else { a + 1 };
                        let b2 = if b < i { b } else { b + 1 };
                        assert(n.rows[a] == o.rows[a2] && n.rows[b] == o.rows[b2]);
                    }
                    assert forall|a: int, b: int|
                        0 <= a < n.rows.len() && 0 <= b < n.rows.len() && a != b
                            implies n.rows[a].email != n.rows[b].email by {
                        let a2 = if a < i { a } else { a + 1 };
                        let b2 = if b < i { b } else { b + 1 };
                        assert(n.rows[a] == o.rows[a2] && n.rows[b] == o.rows[b2]);
                    }
                    assert forall|a: int| 0 <= a < n.rows.len() implies 1 <= #[trigger] n.rows[a].id
                        < n.next_id by {
                        let a2 = if a < i { a } else { a + 1 };
                        assert(n.rows[a] == o.rows[a2]);
                    }
                }
                Ok(1)
            },
        }
    }

    /// Overwrites the fields of the row with identifier `author.id`; the
    /// result is the number of rows changed. An email held by another row
    /// violates the unique constraint.
    pub fn write(&mut self, author: Author) -> (r: Result<u64, StoreError>)
        requires
            table_wf(old(self)@),
        ensures
            table_wf(final(self)@),
            index_of(old(self)@.rows, author.id as int) < 0 ==> r == Ok::<u64, StoreError>(0)
                && final(self)@ == old(self)@,
            index_of(old(self)@.rows, author.id as int) >= 0 && email_held(
                old(self)@.rows,
                author.email@,
                author.id as int,
            ) ==> (r matches Err(e) && is_conflict(e)) && final(self)@ == old(self)@,
            index_of(old(self)@.rows, author.id as int) >= 0 && !email_held(
                old(self)@.rows,
                author.email@,
                author.id as int,
            ) ==> r == Ok::<u64, StoreError>(1) && final(self)@ == (TableView {
                rows: old(self)@.rows.update(index_of(old(self)@.rows, author.id as int), author@),
                next_id: old(self)@.next_id,
            }),
    {
        match self.find(author.id) {
            None => Ok(0),
            Some(i) => {
                if self.email_taken(&author.email, author.id) {
                    return Err(unique_violation());
                }
                let ghost o = self@;
                self.rows.set(i, author);
                proof {
                    let n = self@;
                    assert(n.rows =~= o.rows.update(i as int, author@));
                    assert forall|a: int, b: int|
                        0 <= a < n.rows.len() && 0 <= b < n.rows.len() && a != b
                            implies n.rows[a].email != n.rows[b].email by {
                        if a == i {
                            assert(!(o.rows[b].email == author.email@ && o.rows[b].id != author.id));
                        } else if b == i {
                            assert(!(o.rows[a].email == author.email@ && o.rows[a].id != author.id));
                        }
                    }
                }
                Ok(1)
            },
        }
    }

    /// Answers a request by running its handler steps against this table.
    pub fn serve(&mut self, q: Request) -> (r: Reply)
        requires
            table_wf(old(self)@),
        ensures
            table_wf(final(self)@),
            final(self)@ == serve_next(old(self)@, q),
            r.status == serve_status(old(self)@, q),
            q is List ==> (r.body matches Body::Many { authors } && authors@.map_values(
                |a: Author| a@,
            ) == old(self)@.rows),
            q matches Request::Get { id } ==> (r.status == OK ==> (r.body matches Body::One {
                author,
            } && author@ == old(self)@.rows[index_of(old(self)@.rows, id as int)])),
    {
        match q {
            Request::List => get_all(Ok(self.select_all())),
            Request::Get { id } => match get_by_id(id) {
                Action::Fetch { id } => get_by_id_reply(Ok(self.select_by_id(id))),
                Action::Respond { reply } => reply,
                _ => {
                    proof {
                        assert(false);
                    }
                    unreachable_step()
                },
            },
            Request::Create { dto } => match create(dto) {
                Action::Insert { dto } => {
                    let result = self.insert(dto);
                    create_reply(result)
                },
                Action::Respond { reply } => reply,
                _ => {
                    proof {
                        assert(false);
                    }
                    unreachable_step()
                },
            },
            Request::Delete { id } => match delete(id) {
                Action::Remove { id } => {
                    let result = self.remove(id);
                    delete_reply(result)
                },
                Action::Respond { reply } => reply,
                _ => {
                    proof {
                        assert(false);
                    }
                    unreachable_step()
                },
            },
            Request::Patch { id, dto } => match patch_update(id, &dto) {
                Action::Fetch { id } => {
                    let found = self.select_by_id(id);
                    match patch_update_fetched(dto, Ok(found)) {
                        Action::Write { author } => {
                            let result = self.write(author);
                            patch_update_reply(result)
                        },
                        Action::Respond { reply } => reply,
                        _ => {
                            proof {
                                assert(false);
                            }
                            unreachable_step()
                        },
                    }
                },
                Action::Respond { reply } => reply,
                _ => {
                    proof {
                        assert(false);
                    }
                    unreachable_step()
                },
            },
        }
    }

    /// Reads every row, in order of insertion.
    pub fn select_all(&self) -> (r: Vec<Author>)
        ensures
            r@.map_values(|a: Author| a@) == self@.rows,
    {
        let mut out: Vec<Author> = Vec::new();
        let mut i: usize = 0;
        while i < self.rows.len()
            invariant
                i <= self.rows@.len(),
                out@.len() == i,
                forall|k: int| 0 <= k < i ==> #[trigger] out@[k]@ == self.rows@[k]@,
            decreases self.rows@.len() - i,
        {
            out.push(self.rows[i].copied());
            i += 1;
        }
        assert(out@.map_values(|a: Author| a@) =~= self@.rows);
        out
    }

    /// Reads the row with identifier `id`.
    pub fn select_by_id(&self, id: i32) -> (r: Option<Author>)
        requires
            table_wf(self@),
        ensures
            index_of(self@.rows, id as int) < 0 <==> r is None,
            r matches Some(a) ==> a@ == self@.rows[index_of(self@.rows, id as int)],
    {
        match self.find(id) {
            Some(i) => Some(self.rows[i].copied()),
            None => None,
        }
    }
}

} // verus!
