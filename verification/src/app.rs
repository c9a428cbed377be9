use vstd::prelude::*;

use crate::models::{
    first_with_id, has_id, next_id_of, render, JsonData, JsonDataError, Todo, TodoError,
};

verus! {

/// Why a command of the application failed.
#[derive(Debug, PartialEq, Eq)]
pub enum AppError {
    /// No item has the id that the command names.
    TodoNotFound,
    /// A new item could not be made.
    TodoError(TodoError),
    /// An edit of the list was refused.
    JsonDataError(JsonDataError),
}

/// The lines that list `todos`, each item rendered and ended by a newline.
pub open spec fn render_lines(todos: Seq<Todo>) -> Seq<char>
    decreases todos.len(),
{
    if todos.len() == 0 {
        Seq::empty()
    } else {
        render_lines(todos.drop_last()) + render(todos.last()) + seq!['\n']
    }
}

/// The lines that list the completed items of `todos`, in order.
pub open spec fn render_completed_lines(todos: Seq<Todo>) -> Seq<char>
    decreases todos.len(),
{
    if todos.len() == 0 {
        Seq::empty()
    } else if todos.last().completed {
        render_completed_lines(todos.drop_last()) + render(todos.last()) + seq!['\n']
    } else {
        render_completed_lines(todos.drop_last())
    }
}

/// The to-do application: the list it works on, the text it has written so
/// far, and whether the list has changed since it was last saved.
pub struct App {
    store: JsonData,
    writer: String,
    pending_write: bool,
}

impl App {
    /// The items of the list.
    pub closed spec fn todos(&self) -> Seq<Todo> {
        self.store.todos@
    }

    /// Everything the application has written.
    pub closed spec fn output(&self) -> Seq<char> {
        self.writer@
    }

    /// The list has changed and is owed a save.
    pub closed spec fn pending_write(&self) -> bool {
        self.pending_write
    }

    /// An application over the list `store` that writes after the text in `writer`.
    pub fn new(store: JsonData, writer: String) -> (app: App)
        ensures
            app.todos() == store.todos@,
            app.output() == writer@,
            !app.pending_write(),
    {
        App { store, writer, pending_write: false }
    }

    /// The list the application works on.
    pub fn data(&self) -> (d: &JsonData)
        ensures
            d.todos@ == self.todos(),
    {
        &self.store
    }

    /// The text the application has written.
    pub fn writer(&self) -> (w: &String)
        ensures
            w@ == self.output(),
    {
        &self.writer
    }

    /// Whether the list has changed since the application was made, so that
    /// it must be saved.
    pub fn needs_write(&self) -> (b: bool)
        ensures
            b == self.pending_write(),
    {
        self.pending_write
    }

    /// Writes every item of the list, one per line.
    pub fn list(&mut self) -> (r: Result<(), AppError>)
        ensures
            r is Ok,
            final(self).output() == old(self).output() + render_lines(old(self).todos()),
            final(self).todos() == old(self).todos(),
            final(self).pending_write() == old(self).pending_write(),
    {
        let n = self.store.todos.len();
        let mut i: usize = 0;
        while i < n
            invariant
                n == self.todos().len(),
                i <= n,
                self.todos() == old(self).todos(),
                self.pending_write() == old(self).pending_write(),
                self.output() == old(self).output() + render_lines(self.todos().take(i as int)),
            decreases n - i,
        {
            assert(self.todos().take(i + 1).drop_last() == self.todos().take(i as int));
            let line = self.store.todos[i].to_string();
            self.writer.append(line.as_str());
            proof {
                reveal_strlit("\n");
            }
            self.writer.append("\n");
            i = i + 1;
        }
        assert(self.todos().take(n as int) == self.todos());
        Ok(())
    }

    /// Writes every completed item of the list, one per line.
    pub fn list_completed(&mut self) -> (r: Result<(), AppError>)
        ensures
            r is Ok,
            final(self).output() == old(self).output() + render_completed_lines(old(self).todos()),
            final(self).todos() == old(self).todos(),
            final(self).pending_write() == old(self).pending_write(),
    {
        let n = self.store.todos.len();
        let mut i: usize = 0;
        while i < n
            invariant
                n == self.todos().len(),
                i <= n,
                self.todos() == old(self).todos(),
                self.pending_write() == old(self).pending_write(),
                self.output() == old(self).output() + render_completed_lines(
                    self.todos().take(i as int),
                ),
            decreases n - i,
        {
            assert(self.todos().take(i + 1).drop_last() == self.todos().take(i as int));
            if self.store.todos[i].completed {
                let line = self.store.todos[i].to_string();
                self.writer.append(line.as_str());
                proof {
                    reveal_strlit("\n");
                }
                self.writer.append("\n");
            }
            i = i + 1;
        }
        assert(self.todos().take(n as int) == self.todos());
        Ok(())
    }

    /// Writes the first item with id `id` on a line of its own; fails with
    /// `TodoNotFound`, writing nothing, when no item has that id.
    pub fn get(&mut self, id: u32) -> (r: Result<(), AppError>)
        ensures
            r is Ok <==> has_id(old(self).todos(), id),
            r is Err ==> r == Err::<(), AppError>(AppError::TodoNotFound) && final(self).output()
                == old(self).output(),
            r is Ok ==> exists|i: int|
                first_with_id(old(self).todos(), id, i) && final(self).output() == old(
                    self,
                ).output() + render(#[trigger] old(self).todos()[i]) + seq!['\n'],
            final(self).todos() == old(self).todos(),
            final(self).pending_write() == old(self).pending_write(),
    {
        let ghost todos = self.todos();
        let ghost mut w: int = 0;
        let line = match self.store.find_todo_by_id(id) {
            Some(todo) => {
                proof {
                    w = choose|i: int| first_with_id(todos, id, i) && *todo == todos[i];
                }
                todo.to_string()
            },
            None => {
                return Err(AppError::TodoNotFound);
            },
        };
        self.writer.append(line.as_str());
        proof {
            reveal_strlit("\n");
        }
        self.writer.append("\n");
        assert(first_with_id(todos, id, w) && self.output() == old(self).output() + render(
            todos[w],
        ) + seq!['\n']);
        Ok(())
    }

    /// Adds an item with the given title, marks the list as owed a save, and
    /// writes `Saved todo: <title>!`; refuses a title that is not valid,
    /// changing and writing nothing.
    pub fn add(&mut self, title: String) -> (r: Result<(), AppError>)
        requires
            next_id_of(old(self).todos()) is Some,
        ensures
            r is Ok <==> crate::models::valid_title(title@),
            r is Err ==> {
                &&& r == Err::<(), AppError>(
                    AppError::TodoError(TodoError::TitleInvalidLength(title@.len() as usize)),
                )
                &&& final(self).todos() == old(self).todos()
                &&& final(self).output() == old(self).output()
                &&& final(self).pending_write() == old(self).pending_write()
            },
            r is Ok ==> {
                &&& final(self).todos().len() == old(self).todos().len() + 1
                &&& final(self).todos().drop_last() == old(self).todos()
                &&& final(self).todos().last().id == next_id_of(old(self).todos()).unwrap()
                &&& final(self).todos().last().title@ == title@
                &&& !final(self).todos().last().completed
                &&& final(self).pending_write()
                &&& final(self).output() == old(self).output() + "Saved todo: "@ + title@ + "!\n"@
            },
    {
        let shown = title.clone();
        match self.store.add_todo(title) {
            Ok(_) => {},
            Err(e) => {
                return Err(AppError::TodoError(e));
            },
        }
        self.pending_write = true;
        self.writer.append("Saved todo: ");
        self.writer.append(shown.as_str());
        self.writer.append("!\n");
        Ok(())
    }

    /// Edits the first item with id `id` (see [`JsonData::edit_todo`]), marks
    /// the list as owed a save, and writes `Todo updated successfully!`; on a
    /// refused edit, fails with `JsonDataError`, changing and writing nothing.
    pub fn edit(&mut self, id: u32, title: Option<String>, completed: Option<bool>) -> (r: Result<
        (),
        AppError,
    >)
        ensures
            !has_id(old(self).todos(), id) ==> r == Err::<(), AppError>(
                AppError::JsonDataError(JsonDataError::TodoNotFound(id)),
            ),
            has_id(old(self).todos(), id) && (title matches Some(s) && !crate::models::valid_title(
                s@,
            )) ==> r == Err::<(), AppError>(
                AppError::JsonDataError(
                    JsonDataError::TodoError(
                        TodoError::TitleInvalidLength(title->0@.len() as usize),
                    ),
                ),
            ),
            r is Ok <==> has_id(old(self).todos(), id) && (title matches Some(s)
                ==> crate::models::valid_title(s@)),
            r is Err ==> {
                &&& final(self).todos() == old(self).todos()
                &&& final(self).output() == old(self).output()
                &&& final(self).pending_write() == old(self).pending_write()
            },
            r is Ok ==> {
                &&& exists|i: int|
                    {
                        &&& first_with_id(old(self).todos(), id, i)
                        &&& final(self).todos().len() == old(self).todos().len()
                        &&& crate::models::is_edit_of(
                            #[trigger] final(self).todos()[i],
                            old(self).todos()[i],
                            crate::models::title_view(title),
                            completed,
                        )
                        &&& forall|j: int|
                            0 <= j < old(self).todos().len() && j != i ==> final(self).todos()[j]
                                == old(self).todos()[j]
                    }
                &&& final(self).pending_write()
                &&& final(self).output() == old(self).output() + "Todo updated successfully!\n"@
            },
    {
        let ghost todos = self.todos();
        let ghost tv = crate::models::title_view(title);
        let ghost mut w: int = 0;
        match self.store.edit_todo(id, title, completed) {
            Ok(t) => {
                proof {
                    let i = choose|i: int|
                        {
                            &&& first_with_id(todos, id, i)
                            &&& self.store.todos@.len() == todos.len()
                            &&& crate::models::is_edit_of(
                                #[trigger] self.store.todos@[i],
                                todos[i],
                                tv,
                                completed,
                            )
                            &&& forall|j: int|
                                0 <= j < todos.len() && j != i ==> self.store.todos@[j] == todos[j]
                            &&& *t == self.store.todos@[i]
                        };
                    w = i;
                }
            },
            Err(e) => {
                return Err(AppError::JsonDataError(e));
            },
        }
        self.pending_write = true;
        self.writer.append("Todo updated successfully!\n");
        assert(crate::models::is_edit_of(self.todos()[w], todos[w], tv, completed));
        assert(forall|j: int|
            0 <= j < todos.len() && j != w ==> self.todos()[j] == todos[j]);
        Ok(())
    }

    /// Marks the first item with id `id` as completed, marks the list as owed
    /// a save, and writes `Todo completed successfully!`; fails with
    /// `TodoNotFound`, changing and writing nothing, when no item has that id.
    pub fn complete(&mut self, id: u32) -> (r: Result<(), AppError>)
        ensures
            r is Ok <==> has_id(old(self).todos(), id),
            r is Err ==> {
                &&& r == Err::<(), AppError>(AppError::TodoNotFound)
                &&& final(self).todos() == old(self).todos()
                &&& final(self).output() == old(self).output()
                &&& final(self).pending_write() == old(self).pending_write()
            },
            r is Ok ==> {
                &&& exists|i: int|
                    first_with_id(old(self).todos(), id, i) && final(self).todos() == old(
                        self,
                    ).todos().update(
                        i,
                        crate::models::completed_version(#[trigger] old(self).todos()[i]),
                    )
                &&& final(self).pending_write()
                &&& final(self).output() == old(self).output() + "Todo completed successfully!\n"@
            },
    {
        let ghost todos = self.todos();
        match self.store.complete_todo(id) {
            Some(t) => {
                proof {
                    let i = choose|i: int|
                        {
                            &&& first_with_id(todos, id, i)
                            &&& self.store.todos@ == todos.update(
                                i,
                                crate::models::completed_version(#[trigger] todos[i]),
                            )
                            &&& *t == self.store.todos@[i]
                        };
                    assert(self.todos() == todos.update(i, crate::models::completed_version(todos[i])));
                }
            },
            None => {
                return Err(AppError::TodoNotFound);
            },
        }
        self.pending_write = true;
        self.writer.append("Todo completed successfully!\n");
        Ok(())
    }

    /// Removes the first item with id `id`, marks the list as owed a save, and
    /// writes `Todo deleted successfully!`; fails with `TodoNotFound`, changing
    /// and writing nothing, when no item has that id.
    pub fn delete(&mut self, id: u32) -> (r: Result<(), AppError>)
        ensures
            r is Ok <==> has_id(old(self).todos(), id),
            r is Err ==> {
                &&& r == Err::<(), AppError>(AppError::TodoNotFound)
                &&& final(self).todos() == old(self).todos()
                &&& final(self).output() == old(self).output()
                &&& final(self).pending_write() == old(self).pending_write()
            },
            r is Ok ==> {
                &&& exists|i: int|
                    first_with_id(old(self).todos(), id, i) && final(self).todos() == old(
                        self,
                    ).todos().remove(i) && #[trigger] old(self).todos()[i].id == id
                &&& final(self).pending_write()
                &&& final(self).output() == old(self).output() + "Todo deleted successfully!\n"@
            },
    {
        let ghost todos = self.todos();
        match self.store.delete_todo(id) {
            Some(t) => {
                proof {
                    let i = choose|i: int|
                        {
                            &&& first_with_id(todos, id, i)
                            &&& t == #[trigger] todos[i]
                            &&& self.store.todos@ == todos.remove(i)
                        };
                    assert(self.todos() == todos.remove(i) && todos[i].id == id);
                }
            },
            None => {
                return Err(AppError::TodoNotFound);
            },
        }
        self.pending_write = true;
        self.writer.append("Todo deleted successfully!\n");
        Ok(())
    }
}

} // verus!
