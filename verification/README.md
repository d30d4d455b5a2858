# fluent-gui

A Fluent 2-style desktop widget toolkit whose decisions are verified with
Verus.

- `src/` is the library, checked by Verus: design tokens and the dark and
  light themes; the menu item model with path-based keyboard navigation and
  the context menu, menu bar and menu button built on it; popup open/close
  motion and its removal timers; the single-line text input (grapheme-aware
  caret movement, selection, clipboard commands, masking, UTF-8/UTF-16 offset
  conversion for input methods); dropdown, combobox and command palette
  filtering and selection; trees, data tables (stable text sorting), tab
  strips, toolbars, settings navigation, toasts, modals and the ribbon with its
  overflow layout; the button and choice controls' styles and clicks.
  Grapheme cluster boundaries come from `unicode-segmentation`, and lower-casing
  from the standard library, behind trusted wrappers that name their results.
- `tests/` exercises the library on concrete values.
- `app/` is the GPUI front end: it draws every widget from the library's state,
  carries pointer, keyboard, clipboard and input-method events to it, runs the
  timers it asks for, and holds what needs floating point (dock sizes, split
  ratios, numeric sorting, window measurement).
