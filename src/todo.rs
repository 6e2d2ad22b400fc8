use vstd::prelude::*;

verus! {

/// A todo record: a server-assigned identifier, a title and a completion flag.
#[derive(Debug)]
pub struct Todo {
    pub id: String,
    pub title: String,
    pub completed: bool,
}

/// The mathematical value of a `Todo`.
pub struct TodoView {
    pub id: Seq<char>,
    pub title: Seq<char>,
    pub completed: bool,
}

impl View for Todo {
    type V = TodoView;

    open spec fn view(&self) -> TodoView {
        TodoView { id: self.id@, title: self.title@, completed: self.completed }
    }
}

impl Todo {
    /// A field-by-field copy with the same view as `self`.
    pub fn duplicate(&self) -> (r: Todo)
        ensures
            r@ == self@,
    {
        Todo { id: self.id.clone(), title: self.title.clone(), completed: self.completed }
    }
}

/// The body of a create request: the title only.
#[derive(Debug)]
pub struct CreateTodo {
    pub title: String,
}

/// The body of an update request: each present field replaces the stored one.
#[derive(Debug)]
pub struct UpdateTodo {
    pub title: Option<String>,
    pub completed: Option<bool>,
}

/// The mathematical value of an `UpdateTodo`.
pub struct UpdateView {
    pub title: Option<Seq<char>>,
    pub completed: Option<bool>,
}

impl View for UpdateTodo {
    type V = UpdateView;

    open spec fn view(&self) -> UpdateView {
        UpdateView {
            title: match self.title {
                Some(s) => Some(s@),
                None => None,
            },
            completed: self.completed,
        }
    }
}

/// The record `t` after the fields present in `u` have overwritten its own.
pub open spec fn apply_update(t: TodoView, u: UpdateView) -> TodoView {
    TodoView {
        id: t.id,
        title: match u.title {
            Some(s) => s,
            None => t.title,
        },
        completed: match u.completed {
            Some(c) => c,
            None => t.completed,
        },
    }
}

impl Todo {
    /// Overwrites the fields that the update carries and leaves the others.
    pub fn apply(&mut self, u: UpdateTodo)
        ensures
            final(self)@ == apply_update(old(self)@, u@),
    {
        match u.title {
            Some(s) => {
                self.title = s;
            },
            None => {},
        }
        match u.completed {
            Some(c) => {
                self.completed = c;
            },
            None => {},
        }
    }
}

} // verus!
