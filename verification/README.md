# rat_widget

State, layout and event logic of a set of terminal-UI widgets, verified
with Verus.

- `src/` is the library. Every function there carries a contract that
  Verus proves: the calendar with its selection models and key and mouse
  handling, the splitter, the choice list, captions with hotkeys,
  checkboxes, page navigation, forms, list rows, the clipper, shadows and the layout
  helpers (generic, form, grid, dialog, outer and middle layouts, and
  constraint solving through `ratatui-core`).
- Calls into outside crates (`chrono` for dates, `unicode-segmentation`
  and `unicode-display-width` for text, `ratatui-core` for the
  constraint solver) sit behind small trusted wrappers whose contracts
  name or state what those functions return.
- `app/` holds the glue that Verus does not see: drawing into a
  `ratatui-core` buffer, conversion of `crossterm` events, the clock and
  the tracking of mouse drags.
- `tests/` runs the library on concrete values.

Geometry is kept in plain `u16` cells; an area never reaches past
`u16::MAX`. Dates are day numbers in chrono's range.
