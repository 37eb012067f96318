# konsol

The information screen of Konsulatet and its admin page, with its logic
verified by Verus.

- `src/` is the verified library: the data model, the slide upload and
  settings checks, the session decisions, the departure board and calendar
  selection, the screen's layout rules, and the cached settings store of the
  backend, written as steps from state and database answer to next state
  and action.
- `tests/` runs the library on concrete values.
- `app/` is the program around it: the web server, the database, cookies,
  files and the JSON feeds. It drives the library's steps and hands it plain
  values.
