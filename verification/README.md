# shortcut

A tool that creates `.desktop` files (freedesktop desktop entries) for
applications, with a verified core.

- `src/` is the library, verified with Verus: the desktop entry and its text
  (`desktop`), where entries are stored (`desktop`), reading stored entry files
  (`entry_file`, with `freedesktop_entry_parser`), the rows and the search of the
  shortcut list (`entry`, `manage`), the creation and editing forms with their
  path checks and save plans (`quick_mode`, `quick_flow`), the icon choice
  (`icon`), page navigation and the toast (`viewport`), text helpers (`text`) and
  properties relating several operations (`laws`).
- `app/` is the GTK 4 / libadwaita program around it: widgets, dialogs, settings
  and file system access. It hands the library plain values and shows what the
  library decides.
- `tests/` exercises the library on concrete values.
