# chat_panel

The state, decisions and texts of a chat panel, verified with Verus.

- `src/panel.rs` holds the panel: how it is made and loaded, and how it answers
  to each signal with a new state and with effects that ask something of the
  world. `src/effect.rs` lists the signals and effects.
- `src/render.rs` holds what the panel shows, as a tree of the elements in
  `src/element.rs`.
- `src/timestamp.rs` writes the time of a message, on the calendar and clocks of
  `src/calendar.rs` and `src/moment.rs`.
- `src/dock.rs` and `src/actions.rs` hold how the panel stands in a dock and what
  the user can do with it.
- `src/panel_laws.rs` and `src/label_laws.rs` state what holds of every session
  and of every time that is written.
- `app/` runs the panel on a host: a window toolkit, a chat service and a
  key-value store.

Two functions of the `time` crate are trusted, in `src/moment.rs`: the shift of a
moment to another offset from UTC, and the day after a date.
