# omt_tools

The logic of the OMT Tools suite (Config Manager, Discovery Server, Launcher,
Studio Monitor, Test Patterns) as a Verus library: every function in `src/`
carries a `requires`/`ensures` contract that Verus proves, except the few
trusted items in `src/settings_editor.rs` (`PathBuf` carried as an opaque
type, its `clone`, and `debug_quoted`, which calls std's `Debug` rendering
of a string), whose contracts are taken as given.

## Layout

- `src/text.rs` — text primitives with specifications: trimming, XML names,
  `u32` parsing as `str::parse` does it, decimal formatting, ordering.
- `src/entries.rs` — key/value lists and their stable sort by key.
- `src/settings_editor.rs`, `src/settings_laws.rs`, `src/config_form.rs` —
  the `settings.xml` editor: validation, extra keys, the save plan, reload,
  and keyboard editing of its form. The laws include that reloading what was
  saved gives back the edited fields.
- `src/discovery.rs` — Discovery Server listen settings, bind choices, the
  bounded event log and the server window's fields.
- `src/launcher.rs` — tool ids, launch arguments, desktop entries and
  `Info.plist` text, usable-binary checks, install paths.
- `src/monitor.rs`, `src/monitor_menu.rs`, `src/monitor_prefs.rs`,
  `src/monitor_poll.rs` — Studio Monitor: buffer fields, status line, the
  context menu (rows, check marks, actions), the preferences dialog and the
  per-tick bookkeeping.
- `src/patterns.rs`, `src/patterns_form.rs`, `src/editing.rs` — Test
  Patterns steppers and send form, and single-line text editing.
- `tests/` — executable tests of the library.
- `app/` — the Discovery Server command line and the file, network and
  process plumbing around the library (not verified).
