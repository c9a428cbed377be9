use vstd::prelude::*;
use vstd::string::StrSliceExecFns;

use crate::text::{decimal, push_decimal};

verus! {

/// The fewest characters a title may have.
pub const MIN_TITLE_CHARS: usize = 4;

/// The most characters a title may have.
pub const MAX_TITLE_CHARS: usize = 200;

/// Why a to-do item could not be made.
#[derive(Debug, PartialEq, Eq)]
pub enum TodoError {
    /// The title's length in characters (not bytes) lies outside `4..=200`.
    TitleInvalidLength(usize),
}

/// A single to-do item.
#[derive(Debug, PartialEq)]
pub struct Todo {
    pub id: u32,
    pub title: String,
    pub completed: bool,
}

/// A title is valid when it has between 4 and 200 characters, both included.
pub open spec fn valid_title(title: Seq<char>) -> bool {
    MIN_TITLE_CHARS <= title.len() <= MAX_TITLE_CHARS
}

impl Todo {
    /// Makes a to-do item, refusing a title whose character count lies outside `4..=200`.
    pub fn try_new(id: u32, title: String, completed: bool) -> (res: Result<Todo, TodoError>)
        ensures
            valid_title(title@) <==> res is Ok,
            res matches Ok(t) ==> t.id == id && t.title@ == title@ && t.completed == completed,
            res matches Err(e) ==> e == TodoError::TitleInvalidLength(title@.len() as usize),
    {
        let title_char_count = title.as_str().unicode_len();
        if !(MIN_TITLE_CHARS <= title_char_count && title_char_count <= MAX_TITLE_CHARS) {
            Err(TodoError::TitleInvalidLength(title_char_count))
        } else {
            Ok(Todo { id, title, completed })
        }
    }
}

/// The one-line rendering of a to-do item: its id, a checkbox marked `x`
/// when it is completed, and its title, as in `1 [ ] Buy milk`.
pub open spec fn render(t: Todo) -> Seq<char> {
    decimal(t.id as nat) + seq![' ', '[', if t.completed { 'x' } else { ' ' }, ']', ' '] + t.title@
}

impl Todo {
    /// Renders the item on one line; see [`render`].
    pub fn to_string(&self) -> (s: String)
        ensures
            s@ == render(*self),
    {
        let mut s = String::new();
        push_decimal(&mut s, self.id);
        proof {
            reveal_strlit(" [x] ");
            reveal_strlit(" [ ] ");
        }
        if self.completed {
            s.append(" [x] ");
        } else {
            s.append(" [ ] ");
        }
        s.append(self.title.as_str());
        s
    }
}

/// Why an edit of the list was refused.
#[derive(Debug, PartialEq, Eq)]
pub enum JsonDataError {
    /// No item has the id that was asked for.
    TodoNotFound(u32),
    /// The new title is not a valid title.
    TodoError(TodoError),
}

/// The whole list of to-do items, in the order in which they were added.
#[derive(Debug)]
pub struct JsonData {
    pub todos: Vec<Todo>,
}

/// Some item of `todos` has the id `id`.
pub open spec fn has_id(todos: Seq<Todo>, id: u32) -> bool {
    exists|i: int| 0 <= i < todos.len() && #[trigger] todos[i].id == id
}

/// `i` is the position of the first item of `todos` whose id is `id`.
pub open spec fn first_with_id(todos: Seq<Todo>, id: u32, i: int) -> bool {
    &&& 0 <= i < todos.len()
    &&& todos[i].id == id
    &&& forall|j: int| 0 <= j < i ==> #[trigger] todos[j].id != id
}

/// No two items of `todos` share an id.
pub open spec fn unique_ids(todos: Seq<Todo>) -> bool {
    forall|i: int, j: int|
        0 <= i < todos.len() && 0 <= j < todos.len() && i != j ==> #[trigger] todos[i].id
            != #[trigger] todos[j].id
}

/// The greatest id in `todos`, or 0 when it is empty.
pub open spec fn max_id(todos: Seq<Todo>) -> u32
    decreases todos.len(),
{
    if todos.len() == 0 {
        0
    } else {
        let m = max_id(todos.drop_last());
        if todos.last().id > m {
            todos.last().id
        } else {
            m
        }
    }
}

/// The id that the next added item receives: one more than the greatest id,
/// or nothing when that would not fit in a `u32`.
pub open spec fn next_id_of(todos: Seq<Todo>) -> Option<u32> {
    if max_id(todos) < u32::MAX {
        Some((max_id(todos) + 1) as u32)
    } else {
        None
    }
}

/// `t` with its completion flag set.
pub open spec fn completed_version(t: Todo) -> Todo {
    Todo { id: t.id, title: t.title, completed: true }
}

/// `new` is `old` after an edit: same id, the new title if one was given,
/// the new completion flag if one was given.
pub open spec fn is_edit_of(
    new: Todo,
    old: Todo,
    title: Option<Seq<char>>,
    completed: Option<bool>,
) -> bool {
    &&& new.id == old.id
    &&& new.title@ == (match title {
        Some(t) => t,
        None => old.title@,
    })
    &&& new.completed == (match completed {
        Some(c) => c,
        None => old.completed,
    })
}

/// The view of an optional new title.
pub open spec fn title_view(title: Option<String>) -> Option<Seq<char>> {
    match title {
        Some(t) => Some(t@),
        None => None,
    }
}

/// Every id in `todos` is at most `max_id(todos)`, and a nonempty list holds it.
pub proof fn lemma_max_id_bounds(todos: Seq<Todo>)
    ensures
        forall|i: int| 0 <= i < todos.len() ==> #[trigger] todos[i].id <= max_id(todos),
        todos.len() > 0 ==> has_id(todos, max_id(todos)),
    decreases todos.len(),
{
    if todos.len() > 0 {
        let init = todos.drop_last();
        lemma_max_id_bounds(init);
        assert forall|i: int| 0 <= i < todos.len() implies #[trigger] todos[i].id <= max_id(todos) by {
            if i < todos.len() - 1 {
                assert(todos[i] == init[i]);
            }
        }
        if todos.last().id <= max_id(init) && init.len() > 0 {
            let k = choose|k: int| 0 <= k < init.len() && #[trigger] init[k].id == max_id(init);
            assert(todos[k] == init[k]);
        }
    }
}

impl Default for JsonData {
    fn default() -> (d: JsonData)
        ensures
            d.todos@ == Seq::<Todo>::empty(),
    {
        JsonData { todos: Vec::new() }
    }
}

impl JsonData {
    /// The position of the first item with id `id`, if there is one.
    fn position_of(&self, id: u32) -> (r: Option<usize>)
        ensures
            r is None <==> !has_id(self.todos@, id),
            r matches Some(i) ==> first_with_id(self.todos@, id, i as int),
    {
        let n = self.todos.len();
        let mut i: usize = 0;
        while i < n
            invariant
                n == self.todos@.len(),
                i <= n,
                forall|j: int| 0 <= j < i ==> #[trigger] self.todos@[j].id != id,
            decreases n - i,
        {
            if self.todos[i].id == id {
                return Some(i);
            }
            i = i + 1;
        }
        None
    }

    /// The first item with id `id`, if there is one.
    pub fn find_todo_by_id(&self, id: u32) -> (r: Option<&Todo>)
        ensures
            r is None <==> !has_id(self.todos@, id),
            r matches Some(t) ==> exists|i: int|
                first_with_id(self.todos@, id, i) && *t == #[trigger] self.todos@[i],
    {
        match self.position_of(id) {
            Some(i) => Some(&self.todos[i]),
            None => None,
        }
    }

    /// The greatest id in the list, or 0 when the list is empty.
    fn max_todo_id(&self) -> (m: u32)
        ensures
            m == max_id(self.todos@),
    {
        let n = self.todos.len();
        let mut m: u32 = 0;
        let mut i: usize = 0;
        while i < n
            invariant
                n == self.todos@.len(),
                i <= n,
                m == max_id(self.todos@.take(i as int)),
            decreases n - i,
        {
            assert(self.todos@.take(i + 1).drop_last() == self.todos@.take(i as int));
            let id = self.todos[i].id;
            if id > m {
                m = id;
            }
            i = i + 1;
        }
        assert(self.todos@.take(n as int) == self.todos@);
        m
    }

    /// The id that the next added item receives; `None` when the greatest id
    /// is already `u32::MAX`.
    pub fn next_id(&self) -> (r: Option<u32>)
        ensures
            r == next_id_of(self.todos@),
    {
        let m = self.max_todo_id();
        if m < u32::MAX {
            Some(m + 1)
        } else {
            None
        }
    }

    /// Adds an item with the next id, the given title and not completed, and
    /// hands it back; refuses a title that is not valid and leaves the list as it was.
    pub fn add_todo(&mut self, title: String) -> (r: Result<&Todo, TodoError>)
        requires
            next_id_of(old(self).todos@) is Some,
        ensures
            r is Ok <==> valid_title(title@),
            r matches Ok(t) ==> {
                &&& t.id == next_id_of(old(self).todos@).unwrap()
                &&& t.title@ == title@
                &&& !t.completed
                &&& final(self).todos@ == old(self).todos@.push(*t)
            },
            r matches Err(e) ==> {
                &&& e == TodoError::TitleInvalidLength(title@.len() as usize)
                &&& final(self).todos@ == old(self).todos@
            },
    {
        let id = match self.next_id() {
            Some(id) => id,
            None => 0,
        };
        match Todo::try_new(id, title, false) {
            Ok(todo) => {
                let n = self.todos.len();
                self.todos.push(todo);
                Ok(&self.todos[n])
            },
            Err(e) => Err(e),
        }
    }

    /// Marks the first item with id `id` as completed and hands it back;
    /// `None`, with the list unchanged, when no item has that id.
    pub fn complete_todo(&mut self, id: u32) -> (r: Option<&Todo>)
        ensures
            r is None <==> !has_id(old(self).todos@, id),
            r is None ==> final(self).todos@ == old(self).todos@,
            r matches Some(t) ==> exists|i: int|
                {
                    &&& first_with_id(old(self).todos@, id, i)
                    &&& final(self).todos@ == old(self).todos@.update(
                        i,
                        completed_version(#[trigger] old(self).todos@[i]),
                    )
                    &&& *t == final(self).todos@[i]
                },
    {
        match self.position_of(id) {
            Some(i) => {
                self.todos[i].completed = true;
                Some(&self.todos[i])
            },
            None => None,
        }
    }

    /// Replaces the title and/or the completion flag of the first item with id
    /// `id` and hands it back. Refuses, with the list unchanged, when no item
    /// has that id, or when the new title is not valid.
    pub fn edit_todo(&mut self, id: u32, title: Option<String>, completed: Option<bool>) -> (r:
        Result<&Todo, JsonDataError>)
        ensures
            !has_id(old(self).todos@, id) ==> r == Err::<&Todo, JsonDataError>(
                JsonDataError::TodoNotFound(id),
            ),
            has_id(old(self).todos@, id) && (title matches Some(s) && !valid_title(s@)) ==> r
                == Err::<&Todo, JsonDataError>(
                JsonDataError::TodoError(TodoError::TitleInvalidLength(title->0@.len() as usize)),
            ),
            r is Err ==> final(self).todos@ == old(self).todos@,
            r is Ok <==> has_id(old(self).todos@, id) && (title matches Some(s) ==> valid_title(
                s@,
            )),
            r matches Ok(t) ==> exists|i: int|
                {
                    &&& first_with_id(old(self).todos@, id, i)
                    &&& final(self).todos@.len() == old(self).todos@.len()
                    &&& is_edit_of(
                        #[trigger] final(self).todos@[i],
                        old(self).todos@[i],
                        title_view(title),
                        completed,
                    )
                    &&& forall|j: int|
                        0 <= j < old(self).todos@.len() && j != i ==> final(self).todos@[j]
                            == old(self).todos@[j]
                    &&& *t == final(self).todos@[i]
                },
    {
        let i = match self.position_of(id) {
            Some(i) => i,
            None => {
                return Err(JsonDataError::TodoNotFound(id));
            },
        };
        match title {
            Some(new_title) => {
                let done = match completed {
                    Some(c) => c,
                    None => self.todos[i].completed,
                };
                match Todo::try_new(self.todos[i].id, new_title, done) {
                    Ok(todo) => {
                        self.todos.set(i, todo);
                    },
                    Err(e) => {
                        return Err(JsonDataError::TodoError(e));
                    },
                }
            },
            None => {
                if let Some(c) = completed {
                    self.todos[i].completed = c;
                }
            },
        }
        Ok(&self.todos[i])
    }

    /// Removes the first item with id `id` and hands it back; `None`, with the
    /// list unchanged, when no item has that id.
    pub fn delete_todo(&mut self, id: u32) -> (r: Option<Todo>)
        ensures
            r is None <==> !has_id(old(self).todos@, id),
            r is None ==> final(self).todos@ == old(self).todos@,
            r matches Some(t) ==> exists|i: int|
                {
                    &&& first_with_id(old(self).todos@, id, i)
                    &&& t == #[trigger] old(self).todos@[i]
                    &&& final(self).todos@ == old(self).todos@.remove(i)
                },
    {
        match self.position_of(id) {
            Some(i) => Some(self.todos.remove(i)),
            None => None,
        }
    }
}

} // verus!
