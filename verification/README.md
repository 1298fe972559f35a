# ivory_ui

The interface of Tangent, a MIDI keyboard monitor: its context menu, dialogs,
shortcuts, fretboard, mixer and ports, shared by a desktop program and a plugin
editor.

- `src/` holds what the interface decides, verified with Verus: what the menu
  lists for a host and which hover is open, what a dialog leaves open and asks
  for, what a press, a key or a MIDI message means, which tunings and exports
  are sound, and what is drawn on a neck or a channel strip. Its functions state
  what they return, `pub proof fn` items state what holds across them, and the
  port traits are for a host to implement.
- `app/` draws all of it with `egui`: windows, painting, and the floating-point
  geometry under both.
- `tests/` runs the library on concrete values.

Colours, times and tempos are plain integers in the library: channels of eight
bits, nanoseconds, and the bits of a double. Lists the library does not own,
such as the shipped tunings and the clefs, are handed to it.
