# Scourgify

Scourgify keeps Windows Quick Access (Recent Files and Frequent Folders) tidy: it
classifies items by whitelist and blacklist rules, removes what the rules target,
records every removal and cleanup run, runs cleanups on a schedule or when Quick
Access changes, and can lock Quick Access in a privacy mode.

This crate is written in Verus. Its library, under `src/`, holds the decisions of the
application, each with a contract that Verus proves:

- `matcher`, `rules`, `cleanup`: rule matching, cleanup planning and execution, and
  the history entries a cleanup writes;
- `auto_clean`, `scheduler`, `notifier`, `status`: automatic cleanups, their
  schedules and monitor, notifications and the runtime status;
- `history`, `history_runs`, `database`, `rules_transfer`: validation of history and
  run queries, CSV exports, schema migration plans and rule files;
- `quick_access`, `qa_cache`, `privacy`, `mock`: Quick Access requests, the listing
  cache, privacy-mode locks and the in-memory backend;
- `config`, `shell`, `tray_menu`, `i18n`, `commands`, `error`: settings, window and
  tray behaviour, labels, and the errors that commands report;
- `text`, `winpath`, `clock`: character-level text, Windows path operations, and
  reading the system clock.

Calls into other crates (`csv`, `anyhow`, `fake`, parts of `std`) go through small
trusted wrappers whose contracts state what their documentation promises. `chrono`
is used only by `app/` and the tests, for local time zones.

`tests/` exercises the library on concrete values. `app/` is the command-line front
end: it reads and writes the settings file and the SQLite database, talks to Windows
through `wincent` and `winreg`, and runs the scheduler and monitor threads.
