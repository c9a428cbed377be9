# todo_rs

A to-do list manager. `src/` is the verified library:

- `models`: the to-do item (`Todo`, title validation, one-line rendering)
  and the list (`JsonData`: find, add with the next id, complete, edit, delete),
  with their spec model over `Seq<Todo>`;
- `app`: `App`, the command-level logic over a list, which records the text it
  writes and whether the list is owed a save;
- `cli`: the program's arguments as plain data;
- `laws`: proof functions relating the list operations (a lookup after an add,
  complete, edit or delete; distinct ids kept);
- `text`: decimal rendering of numbers.

`app/` is the program: clap argument parsing, the JSON file store (serde,
serde_json), running one command and printing its output.
