use vstd::prelude::*;
use crate::error::AppError;
use crate::model::{Todo, TodoView};

verus! {

/// No two records share an identifier.
pub open spec fn ids_unique(s: Seq<TodoView>) -> bool {
    forall|i: int, j: int|
        0 <= i < s.len() && 0 <= j < s.len() && #[trigger] s[i].id == #[trigger] s[j].id ==> i == j
}

/// Records stand from the most recently created to the oldest.
pub open spec fn newest_first(s: Seq<TodoView>) -> bool {
    forall|i: int, j: int|
        0 <= i <= j < s.len() ==> #[trigger] s[i].created_at >= #[trigger] s[j].created_at
}

/// No record was updated before it was created.
pub open spec fn stamps_ordered(s: Seq<TodoView>) -> bool {
    forall|i: int| 0 <= i < s.len() ==> #[trigger] s[i].created_at <= s[i].updated_at
}

/// The invariant of the store's contents.
pub open spec fn records_wf(s: Seq<TodoView>) -> bool {
    &&& ids_unique(s)
    &&& newest_first(s)
    &&& stamps_ordered(s)
}

/// Some record has identifier `id`.
pub open spec fn has_id(s: Seq<TodoView>, id: u128) -> bool {
    exists|i: int| 0 <= i < s.len() && #[trigger] s[i].id == id
}

/// The position of the record with identifier `id`, where there is one.
pub open spec fn index_of(s: Seq<TodoView>, id: u128) -> int {
    choose|i: int| 0 <= i < s.len() && #[trigger] s[i].id == id
}

/// The record with identifier `id`, if any.
pub open spec fn find(s: Seq<TodoView>, id: u128) -> Option<TodoView> {
    if has_id(s, id) {
        Some(s[index_of(s, id)])
    } else {
        None
    }
}

/// The records from position `offset` on, at most `limit` of them.
pub open spec fn window(s: Seq<TodoView>, offset: int, limit: int) -> Seq<TodoView> {
    let lo = if offset < s.len() { offset } else { s.len() as int };
    let hi = if offset + limit < s.len() { offset + limit } else { s.len() as int };
    s.subrange(lo, hi)
}

/// The value of a list of records.
pub open spec fn views(v: Seq<Todo>) -> Seq<TodoView> {
    v.map_values(|t: Todo| t@)
}

/// Where a record created at `now` goes: after every record created later,
/// before every other one.
pub open spec fn is_insert_pos(s: Seq<TodoView>, p: int, now: i64) -> bool {
    &&& 0 <= p <= s.len()
    &&& forall|i: int| 0 <= i < p ==> #[trigger] s[i].created_at > now
    &&& forall|i: int| p <= i < s.len() ==> #[trigger] s[i].created_at <= now
}

/// The later of two instants.
pub open spec fn later(a: i64, b: i64) -> i64 {
    if a >= b { a } else { b }
}

/// In a sequence without repeated identifiers, the record found for the
/// identifier at position `i` is the one at `i`.
pub proof fn lemma_find_at(s: Seq<TodoView>, i: int)
    requires
        ids_unique(s),
        0 <= i < s.len(),
    ensures
        has_id(s, s[i].id),
        index_of(s, s[i].id) == i,
        find(s, s[i].id) == Some(s[i]),
{
    assert(s[i].id == s[i].id);
    let k = index_of(s, s[i].id);
    assert(s[k].id == s[i].id);
}

/// The store of todo records, kept in memory. Each operation has the effect
/// of the single SQL statement the service issues for it.
pub struct TodoStore {
    records: Vec<Todo>,
}

impl View for TodoStore {
    type V = Seq<TodoView>;

    closed spec fn view(&self) -> Seq<TodoView> {
        views(self.records@)
    }
}

impl TodoStore {
    pub open spec fn wf(&self) -> bool {
        records_wf(self@)
    }

    /// An empty store.
    pub fn new() -> (r: TodoStore)
        ensures
            r.wf(),
            r@ == Seq::<TodoView>::empty(),
    {
        let r = TodoStore { records: Vec::new() };
        assert(r@ =~= Seq::<TodoView>::empty());
        r
    }

    /// Number of records held.
    pub fn len(&self) -> (r: usize)
        ensures
            r == self@.len(),
    {
        self.records.len()
    }

    /// The position of the record with identifier `id`, if any.
    fn position(&self, id: u128) -> (r: Option<usize>)
        requires
            self.wf(),
        ensures
            r is None <==> !has_id(self@, id),
            r is Some ==> r->0 == index_of(self@, id) && r->0 < self@.len(),
    {
        let mut i: usize = 0;
        while i < self.records.len()
            invariant
                i <= self.records@.len(),
                self.wf(),
                self@.len() == self.records@.len(),
                forall|k: int| 0 <= k < i ==> #[trigger] self@[k].id != id,
            decreases self.records@.len() - i,
        {
            assert(self@[i as int] == self.records@[i as int]@);
            if self.records[i].id == id {
                proof {
                    lemma_find_at(self@, i as int);
                }
                return Some(i);
            }
            i = i + 1;
        }
        None
    }

    /// Whether a record has identifier `id`.
    pub fn contains(&self, id: u128) -> (r: bool)
        requires
            self.wf(),
        ensures
            r == has_id(self@, id),
    {
        self.position(id).is_some()
    }

    /// `INSERT ... RETURNING`: adds a record with the given identifier, title
    /// and completion flag, created and updated at `now`. An identifier that
    /// is already taken breaks the primary key and fails the statement.
    pub fn insert(&mut self, id: u128, title: String, completed: bool, now: i64) -> (r: Result<
        Todo,
        AppError,
    >)
        requires
            old(self).wf(),
        ensures
            final(self).wf(),
            r is Err <==> has_id(old(self)@, id),
            r is Err ==> r->Err_0 is Database && final(self)@ == old(self)@,
            r is Ok ==> {
                let t = r->Ok_0@;
                &&& t == TodoView {
                    id,
                    title: title@,
                    completed,
                    created_at: now,
                    updated_at: now,
                }
                &&& exists|p: int|
                    is_insert_pos(old(self)@, p, now) && final(self)@ == old(self)@.insert(p, t)
            },
    {
        if self.contains(id) {
            return Err(
                AppError::Database(
                    "duplicate key value violates unique constraint on todos.id".to_owned(),
                ),
            );
        }
        let ghost s = self@;
        let mut p: usize = 0;
        while p < self.records.len() && self.records[p].created_at > now
            invariant
                p <= self.records@.len(),
                self@ == s,
                records_wf(s),
                self@.len() == self.records@.len(),
                forall|i: int| 0 <= i < p ==> #[trigger] s[i].created_at > now,
            decreases self.records@.len() - p,
        {
            assert(s[p as int] == self.records@[p as int]@);
            p = p + 1;
        }
        proof {
            if p < self.records.len() {
                assert(s[p as int] == self.records@[p as int]@);
            }
        }
        let t = Todo { id, title, completed, created_at: now, updated_at: now };
        let out = t.snapshot();
        self.records.insert(p, t);
        proof {
            assert forall|i: int| p <= i < s.len() implies #[trigger] s[i].created_at <= now by {
                assert(s[p as int].created_at >= s[i].created_at);
            }
            assert(is_insert_pos(s, p as int, now));
            assert(self@ =~= s.insert(p as int, out@));
            let n = self@;
            assert forall|i: int, j: int|
                0 <= i < n.len() && 0 <= j < n.len() && #[trigger] n[i].id == #[trigger] n[j].id
                implies i == j by {
                if i != p && j != p {
                    let a = if i < p { i } else { i - 1 };
                    let b = if j < p { j } else { j - 1 };
                    assert(s[a].id == s[b].id);
                } else if i == p && j != p {
                    let b = if j < p { j } else { j - 1 };
                    assert(s[b].id == id);
                } else if j == p && i != p {
                    let a = if i < p { i } else { i - 1 };
                    assert(s[a].id == id);
                }
            }
            assert forall|i: int, j: int| 0 <= i <= j < n.len() implies #[trigger] n[i].created_at
                >= #[trigger] n[j].created_at by {
                if i != p && j != p {
                    let a = if i < p { i } else { i - 1 };
                    let b = if j < p { j } else { j - 1 };
                    assert(s[a].created_at >= s[b].created_at);
                } else if i == p && j != p {
                    let b = j - 1;
                    assert(s[b].created_at <= now);
                } else if j == p && i != p {
                    assert(s[i].created_at > now);
                }
            }
            assert forall|i: int| 0 <= i < n.len() implies #[trigger] n[i].created_at
                <= n[i].updated_at by {
                if i < p {
                    assert(s[i] == n[i]);
                } else if i > p {
                    assert(s[i - 1] == n[i]);
                }
            }
        }
        Ok(out)
    }

    /// `SELECT ... WHERE id = $1`: the record with identifier `id`, if any.
    pub fn get(&self, id: u128) -> (r: Option<Todo>)
        requires
            self.wf(),
        ensures
            r is None <==> find(self@, id) is None,
            r is Some ==> find(self@, id) == Some(r->0@),
    {
        match self.position(id) {
            Some(i) => Some(self.records[i].snapshot()),
            None => None,
        }
    }

    /// `SELECT ... ORDER BY created_at DESC LIMIT $1 OFFSET $2`.
    pub fn list(&self, limit: u64, offset: u64) -> (r: Vec<Todo>)
        requires
            self.wf(),
        ensures
            views(r@) == window(self@, offset as int, limit as int),
    {
        let n = self.records.len();
        let lo: usize = if (offset as u128) < (n as u128) { offset as usize } else { n };
        let hi: usize = if (offset as u128) + (limit as u128) < (n as u128) {
            (offset + limit) as usize
        } else {
            n
        };
        let mut out: Vec<Todo> = Vec::new();
        let mut i: usize = lo;
        while i < hi
            invariant
                lo <= i <= hi,
                hi <= n,
                n == self.records@.len(),
                views(out@) == self@.subrange(lo as int, i as int),
            decreases hi - i,
        {
            let t = self.records[i].snapshot();
            assert(self@[i as int] == t@);
            let ghost before = out@;
            out.push(t);
            proof {
                let want = self@.subrange(lo as int, i + 1);
                assert(views(before).len() == before.len());
                assert(out@.len() == want.len());
                assert(views(out@).len() == out@.len());
                assert forall|k: int| 0 <= k < out@.len() implies #[trigger] views(out@)[k]
                    == want[k] by {
                    if k < before.len() {
                        assert(out@[k] == before[k]);
                        assert(views(before)[k] == before[k]@);
                    } else {
                        assert(out@[k]@ == self@[i as int]);
                    }
                }
                assert(views(out@) =~= want);
            }
            i = i + 1;
        }
        out
    }

    /// `UPDATE ... SET title, completed, updated_at = NOW() ... RETURNING`.
    /// The update time never moves back: it is the later of `now` and the
    /// record's previous update time.
    pub fn update(&mut self, id: u128, title: String, completed: bool, now: i64) -> (r: Option<
        Todo,
    >)
        requires
            old(self).wf(),
        ensures
            final(self).wf(),
            r is None <==> !has_id(old(self)@, id),
            r is None ==> final(self)@ == old(self)@,
            r is Some ==> {
                let before = old(self)@[index_of(old(self)@, id)];
                let t = r->0@;
                &&& t == TodoView {
                    id,
                    title: title@,
                    completed,
                    created_at: before.created_at,
                    updated_at: later(before.updated_at, now),
                }
                &&& final(self)@ == old(self)@.update(index_of(old(self)@, id), t)
            },
    {
        match self.position(id) {
            None => None,
            Some(i) => {
                let ghost s = self@;
                let created_at = self.records[i].created_at;
                let prev = self.records[i].updated_at;
                let updated_at = if prev >= now { prev } else { now };
                let t = Todo { id, title, completed, created_at, updated_at };
                let out = t.snapshot();
                self.records.set(i, t);
                proof {
                    assert(self@ =~= s.update(i as int, out@));
                    let n = self@;
                    assert forall|a: int, b: int|
                        0 <= a < n.len() && 0 <= b < n.len() && #[trigger] n[a].id
                            == #[trigger] n[b].id implies a == b by {
                        assert(s[a].id == n[a].id);
                        assert(s[b].id == n[b].id);
                    }
                    assert forall|a: int, b: int| 0 <= a <= b < n.len() implies #[trigger] n[
                        a
                    ].created_at >= #[trigger] n[b].created_at by {
                        assert(s[a].created_at == n[a].created_at);
                        assert(s[b].created_at == n[b].created_at);
                    }
                    assert forall|a: int| 0 <= a < n.len() implies #[trigger] n[a].created_at
                        <= n[a].updated_at by {
                        if a != i {
                            assert(s[a] == n[a]);
                        }
                    }
                }
                Some(out)
            },
        }
    }

    /// `DELETE ... WHERE id = $1`: the number of records removed.
    pub fn delete(&mut self, id: u128) -> (r: u64)
        requires
            old(self).wf(),
        ensures
            final(self).wf(),
            r == 0 <==> !has_id(old(self)@, id),
            r == 0 ==> final(self)@ == old(self)@,
            r != 0 ==> r == 1 && final(self)@ == old(self)@.remove(index_of(old(self)@, id)),
    {
        match self.position(id) {
            None => 0,
            Some(i) => {
                let ghost s = self@;
                self.records.remove(i);
                proof {
                    assert(self@ =~= s.remove(i as int));
                    let n = self@;
                    assert forall|a: int, b: int|
                        0 <= a < n.len() && 0 <= b < n.len() && #[trigger] n[a].id
                            == #[trigger] n[b].id implies a == b by {
                        let x = if a < i { a } else { a + 1 };
                        let y = if b < i { b } else { b + 1 };
                        assert(s[x].id == s[y].id);
                    }
                    assert forall|a: int, b: int| 0 <= a <= b < n.len() implies #[trigger] n[
                        a
                    ].created_at >= #[trigger] n[b].created_at by {
                        let x = if a < i { a } else { a + 1 };
                        let y = if b < i { b } else { b + 1 };
                        assert(s[x].created_at >= s[y].created_at);
                    }
                    assert forall|a: int| 0 <= a < n.len() implies #[trigger] n[a].created_at
                        <= n[a].updated_at by {
                        let x = if a < i { a } else { a + 1 };
                        assert(s[x] == n[a]);
                    }
                }
                1
            },
        }
    }
}

/// Every page of a listing runs from the newest record to the oldest: of two
/// records on it, one created later stands before one created earlier.
pub proof fn lemma_page_newest_first(s: Seq<TodoView>, offset: int, limit: int)
    requires
        records_wf(s),
        offset >= 0,
        limit >= 0,
    ensures
        newest_first(window(s, offset, limit)),
        forall|i: int, j: int|
            0 <= i < window(s, offset, limit).len() && 0 <= j < window(s, offset, limit).len()
                && #[trigger] window(s, offset, limit)[i].created_at > #[trigger] window(
                s,
                offset,
                limit,
            )[j].created_at ==> i < j,
{
    let w = window(s, offset, limit);
    let lo = if offset < s.len() { offset } else { s.len() as int };
    assert forall|i: int, j: int| 0 <= i <= j < w.len() implies #[trigger] w[i].created_at
        >= #[trigger] w[j].created_at by {
        assert(w[i] == s[lo + i]);
        assert(w[j] == s[lo + j]);
    }
    assert forall|i: int, j: int|
        0 <= i < w.len() && 0 <= j < w.len() && #[trigger] w[i].created_at
            > #[trigger] w[j].created_at implies i < j by {
        if j <= i {
            assert(w[j].created_at >= w[i].created_at);
        }
    }
}

/// A record just inserted is found again by its identifier, field for field.
pub proof fn lemma_inserted_is_found(s: Seq<TodoView>, p: int, t: TodoView)
    requires
        0 <= p <= s.len(),
        records_wf(s.insert(p, t)),
    ensures
        find(s.insert(p, t), t.id) == Some(t),
{
    lemma_find_at(s.insert(p, t), p);
}

/// Once the record with identifier `id` is removed, no record has that
/// identifier: a second removal finds nothing.
pub proof fn lemma_removed_is_gone(s: Seq<TodoView>, id: u128)
    requires
        records_wf(s),
        has_id(s, id),
    ensures
        !has_id(s.remove(index_of(s, id)), id),
{
    let k = index_of(s, id);
    let n = s.remove(k);
    if has_id(n, id) {
        let j = choose|j: int| 0 <= j < n.len() && #[trigger] n[j].id == id;
        let x = if j < k { j } else { j + 1 };
        assert(s[x].id == s[k].id);
    }
}

/// An updated record is found again by its identifier with its new value.
pub proof fn lemma_updated_is_found(s: Seq<TodoView>, id: u128, t: TodoView)
    requires
        has_id(s, id),
        t.id == id,
        records_wf(s.update(index_of(s, id), t)),
    ensures
        find(s.update(index_of(s, id), t), id) == Some(t),
{
    lemma_find_at(s.update(index_of(s, id), t), index_of(s, id));
}

/// A record just inserted carries an identifier that no earlier record had,
/// and it is the only record with that identifier afterwards.
pub proof fn lemma_inserted_id_is_fresh(s: Seq<TodoView>, p: int, t: TodoView)
    requires
        0 <= p <= s.len(),
        records_wf(s.insert(p, t)),
    ensures
        !has_id(s, t.id),
        forall|i: int| 0 <= i < s.len() + 1 && #[trigger] s.insert(p, t)[i].id == t.id ==> i == p,
{
    let n = s.insert(p, t);
    assert(n[p] == t);
    if has_id(s, t.id) {
        let j = choose|j: int| 0 <= j < s.len() && #[trigger] s[j].id == t.id;
        let x = if j < p { j } else { j + 1 };
        assert(n[x] == s[j]);
        assert(n[x].id == n[p].id);
    }
}

/// An update keeps the identifier and the creation time of the record, and
/// its update time never moves back nor before the creation time.
pub proof fn lemma_update_keeps_identity(
    s: Seq<TodoView>,
    id: u128,
    title: Seq<char>,
    completed: bool,
    now: i64,
)
    requires
        records_wf(s),
        has_id(s, id),
    ensures
        ({
            let before = s[index_of(s, id)];
            let t = TodoView {
                id,
                title,
                completed,
                created_at: before.created_at,
                updated_at: later(before.updated_at, now),
            };
            &&& t.id == before.id
            &&& t.created_at == before.created_at
            &&& t.updated_at >= before.updated_at
            &&& t.updated_at >= t.created_at
        }),
{
    let k = index_of(s, id);
    assert(s[k].created_at <= s[k].updated_at);
}

} // verus!
