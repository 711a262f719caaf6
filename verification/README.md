# daoda_focus

The core of a local-first desktop focus system — projects, daily tasks and check items,
recurring tasks, a focus timer, memos with reminders, the Today digest, the calendar,
weekly goals, notifications and backups — as a library whose behaviour is
stated in `requires`/`ensures` contracts and proved with Verus.

- `src/` — the verified library. Each module holds the data it decides on and the
  functions that decide, with their contracts; calls into `chrono`, `chrono_tz`, `uuid`,
  `sha2` and `serde_json` sit behind small trusted wrappers whose contracts say what the
  crate's documentation promises.
- `tests/` — tests of the library on concrete values.
- `app/` — the desktop shell's side: the SQLite store (`rusqlite`), files, the clock, and
  the conversion of rows and JSON documents to and from the library's types.
