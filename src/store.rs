use vstd::prelude::*;

use crate::ids::{is_uuid_text, new_id};
use crate::todo::{apply_update, Todo, TodoView, UpdateTodo, UpdateView};

verus! {

/// Why a store operation did not take place.
#[derive(Debug, Clone, Copy, PartialEq, Eq, Structural)]
pub enum StoreError {
    /// No record has the requested identifier.
    NotFound,
    /// The identifier offered for a new record is already in use.
    DuplicateId,
}

/// The views of a sequence of records, in the same order.
pub open spec fn views(v: Seq<Todo>) -> Seq<TodoView> {
    v.map_values(|t: Todo| t@)
}

/// No two records share an identifier.
pub open spec fn ids_unique(s: Seq<TodoView>) -> bool {
    forall|i: int, j: int|
        0 <= i < s.len() && 0 <= j < s.len() && i != j ==> #[trigger] s[i].id != #[trigger] s[j].id
}

/// Some record has identifier `id`.
pub open spec fn has_id(s: Seq<TodoView>, id: Seq<char>) -> bool {
    exists|i: int| 0 <= i < s.len() && #[trigger] s[i].id == id
}

/// Some record's identifier has the shape of a UUID; only then can a freshly
/// drawn UUID clash with a stored one.
pub open spec fn has_uuid_id(s: Seq<TodoView>) -> bool {
    exists|i: int| 0 <= i < s.len() && is_uuid_text(#[trigger] s[i].id)
}

/// `after` is `before` with record `t` added under a fresh identifier and
/// with title `title`, not completed.
pub open spec fn inserted(
    before: Seq<TodoView>,
    title: Seq<char>,
    t: TodoView,
    after: Seq<TodoView>,
) -> bool {
    &&& t.title == title
    &&& !t.completed
    &&& !has_id(before, t.id)
    &&& after == before.push(t)
}

/// A successful create: an insertion under a generated UUID.
pub open spec fn created(
    before: Seq<TodoView>,
    title: Seq<char>,
    t: TodoView,
    after: Seq<TodoView>,
) -> bool {
    &&& inserted(before, title, t, after)
    &&& is_uuid_text(t.id)
}

/// The outcome of updating record `id` of `before` with `u`: the updated
/// record and the new contents, or `NotFound` with the contents unchanged.
pub open spec fn update_post(
    before: Seq<TodoView>,
    id: Seq<char>,
    u: UpdateView,
    r: Result<TodoView, StoreError>,
    after: Seq<TodoView>,
) -> bool {
    if has_id(before, id) {
        exists|i: int|
            0 <= i < before.len() && #[trigger] before[i].id == id && r == Ok::<TodoView, StoreError>(
                apply_update(before[i], u),
            ) && after == before.update(i, apply_update(before[i], u))
    } else {
        r == Err::<TodoView, StoreError>(StoreError::NotFound) && after == before
    }
}

/// The outcome of deleting record `id` of `before`: success with that record
/// removed, or `NotFound` with the contents unchanged.
pub open spec fn delete_post(
    before: Seq<TodoView>,
    id: Seq<char>,
    r: Result<(), StoreError>,
    after: Seq<TodoView>,
) -> bool {
    if has_id(before, id) {
        r == Ok::<(), StoreError>(()) && exists|i: int|
            0 <= i < before.len() && #[trigger] before[i].id == id && after == before.remove(i)
    } else {
        r == Err::<(), StoreError>(StoreError::NotFound) && after == before
    }
}

/// The todo records of one process, each under an identifier of its own.
/// The order of the records carries no meaning.
pub struct TodoStore {
    items: Vec<Todo>,
}

impl View for TodoStore {
    type V = Seq<TodoView>;

    closed spec fn view(&self) -> Seq<TodoView> {
        views(self.items@)
    }
}

impl TodoStore {
    /// The store's invariant: identifiers are unique.
    pub open spec fn wf(&self) -> bool {
        ids_unique(self@)
    }

    /// An empty store.
    pub fn new() -> (r: TodoStore)
        ensures
            r.wf(),
            r@ == Seq::<TodoView>::empty(),
    {
        let r = TodoStore { items: Vec::new() };
        assert(r@ =~= Seq::<TodoView>::empty());
        r
    }

    /// The number of records.
    pub fn len(&self) -> (r: usize)
        ensures
            r == self@.len(),
    {
        self.items.len()
    }

    /// Where the record with identifier `id` stands, if there is one.
    fn position(&self, id: &String) -> (r: Option<usize>)
        ensures
            match r {
                Some(i) => i < self@.len() && self@[i as int].id == id@,
                None => !has_id(self@, id@),
            },
    {
        let n = self.items.len();
        let mut i: usize = 0;
        while i < n
            invariant
                n == self.items@.len(),
                self@.len() == n,
                i <= n,
                forall|k: int| 0 <= k < i ==> #[trigger] self@[k].id != id@,
            decreases n - i,
        {
            if self.items[i].id == *id {
                return Some(i);
            }
            i = i + 1;
        }
        None
    }

    /// Whether some record has identifier `id`.
    pub fn contains(&self, id: &String) -> (r: bool)
        ensures
            r == has_id(self@, id@),
    {
        self.position(id).is_some()
    }

    /// A copy of every record, in the store's order.
    pub fn list(&self) -> (r: Vec<Todo>)
        ensures
            views(r@) == self@,
    {
        let n = self.items.len();
        let mut out: Vec<Todo> = Vec::new();
        let mut i: usize = 0;
        while i < n
            invariant
                n == self.items@.len(),
                self@.len() == n,
                i <= n,
                out@.len() == i,
                views(out@) =~= self@.take(i as int),
            decreases n - i,
        {
            let t = self.items[i].duplicate();
            let ghost prev = out@;
            out.push(t);
            assert forall|k: int| 0 <= k < i + 1 implies #[trigger] views(out@)[k] == self@[k] by {
                if k < i {
                    assert(out@[k] == prev[k]);
                    assert(views(prev)[k] == self@.take(i as int)[k]);
                }
            }
            assert(views(out@) =~= self@.take(i + 1));
            i = i + 1;
        }
        assert(self@.take(n as int) =~= self@);
        out
    }

    /// Adds record {id, title, not completed} when `id` is not in use yet;
    /// otherwise fails with `DuplicateId` and leaves the store as it was.
    pub fn insert_new(&mut self, id: String, title: String) -> (r: Result<Todo, StoreError>)
        requires
            old(self).wf(),
        ensures
            final(self).wf(),
            has_id(old(self)@, id@) <==> r == Err::<Todo, StoreError>(StoreError::DuplicateId),
            match r {
                Ok(t) => t@.id == id@ && inserted(old(self)@, title@, t@, final(self)@),
                Err(e) => e == StoreError::DuplicateId && final(self)@ == old(self)@,
            },
    {
        if self.contains(&id) {
            return Err(StoreError::DuplicateId);
        }
        let t = Todo { id, title, completed: false };
        let ret = t.duplicate();
        self.items.push(t);
        assert(self@ =~= old(self)@.push(t@));
        Ok(ret)
    }

    /// Adds a record with title `title`, not completed, under a freshly drawn
    /// UUID. Should the drawn identifier already be in use, fails with
    /// `DuplicateId` and leaves the store as it was; that cannot happen on a
    /// store that holds no UUID-shaped identifier, an empty one in particular.
    pub fn create(&mut self, title: String) -> (r: Result<Todo, StoreError>)
        requires
            old(self).wf(),
        ensures
            final(self).wf(),
            match r {
                Ok(t) => created(old(self)@, title@, t@, final(self)@),
                Err(e) => e == StoreError::DuplicateId && final(self)@ == old(self)@,
            },
            r is Err ==> has_uuid_id(old(self)@),
    {
        let id = new_id();
        let r = self.insert_new(id, title);
        proof {
            if r is Err {
                let i = choose|i: int| 0 <= i < old(self)@.len() && #[trigger] old(self)@[i].id == id@;
                assert(is_uuid_text(old(self)@[i].id));
            }
        }
        r
    }

    /// Overwrites the fields that `u` carries in the record with identifier
    /// `id` and returns the updated record; `NotFound` if there is none.
    pub fn update(&mut self, id: &String, u: UpdateTodo) -> (r: Result<Todo, StoreError>)
        requires
            old(self).wf(),
        ensures
            final(self).wf(),
            !has_id(old(self)@, id@) <==> r == Err::<Todo, StoreError>(StoreError::NotFound),
            update_post(
                old(self)@,
                id@,
                u@,
                match r {
                    Ok(t) => Ok::<TodoView, StoreError>(t@),
                    Err(e) => Err::<TodoView, StoreError>(e),
                },
                final(self)@,
            ),
    {
        match self.position(id) {
            None => Err(StoreError::NotFound),
            Some(i) => {
                let mut t = self.items[i].duplicate();
                let ghost before = t@;
                t.apply(u);
                let ret = t.duplicate();
                self.items.set(i, t);
                assert(self@ =~= old(self)@.update(i as int, apply_update(before, u@)));
                proof {
                    let s = self@;
                    assert forall|a: int, b: int|
                        0 <= a < s.len() && 0 <= b < s.len() && a != b implies #[trigger] s[a].id
                        != #[trigger] s[b].id by {
                        assert(old(self)@[a].id != old(self)@[b].id);
                    }
                }
                Ok(ret)
            },
        }
    }

    /// Removes the record with identifier `id`; `NotFound` if there is none.
    pub fn delete(&mut self, id: &String) -> (r: Result<(), StoreError>)
        requires
            old(self).wf(),
        ensures
            final(self).wf(),
            delete_post(old(self)@, id@, r, final(self)@),
    {
        match self.position(id) {
            None => Err(StoreError::NotFound),
            Some(i) => {
                self.items.remove(i);
                assert(self@ =~= old(self)@.remove(i as int));
                proof {
                    let s = self@;
                    let o = old(self)@;
                    assert forall|a: int, b: int|
                        0 <= a < s.len() && 0 <= b < s.len() && a != b implies #[trigger] s[a].id
                        != #[trigger] s[b].id by {
                        let oa = if a < i { a } else { a + 1 };
                        let ob = if b < i { b } else { b + 1 };
                        assert(s[a] == o[oa]);
                        assert(s[b] == o[ob]);
                    }
                }
                Ok(())
            },
        }
    }
}

} // verus!
