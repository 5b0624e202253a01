# tuxedo

The verified core of a terminal todo.txt manager: what its keystrokes do, and the
notes that its tasks carry.

- `src/note.rs`: a task's notes folder, the `notes:<id>/` token that links it, and
  the text that a new note starts out with.
- `src/app.rs` and `src/app/`: the application's state; the notes popup, the note
  editor, the pinned note and the command palette.
- `src/dispatch.rs` and `src/dispatch/`: what each keystroke does to that state, and
  what it asks the host for.
- `src/run.rs`: the program's start, its waiting and its drawing.
- `src/ui.rs` and `src/ui/`: what is shown, as lines of tinted text.
- `src/text.rs`, `src/path.rs`, `src/search.rs`, `src/keys.rs`: what those rest on.

Every function says in its contract what it returns and what it changes, and Verus
proves it. Statements about several functions together are the proof functions whose
names begin with `law_`.

The library touches no file and no terminal. It hands out pieces of work (`app::io`,
`dispatch::request`) and takes the answers back; `app/` is a host that does the work:
it reads and writes the files, keeps the task list and the line being edited, and
paints.
