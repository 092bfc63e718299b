# spell_framework

The verified core of Spell, a framework for Wayland layer-shell widgets.

- `src/` is the library, checked by Verus: pixel blending (`pixel`), the
  shared-memory layout of surfaces (`shared_context`), window configuration
  and its builder (`configure`), the state of a widget window and the surface
  requests each change makes (`window_state`), one round of a widget's event
  loop (`event_loop`), pointer routing (`input`), key, button and cursor
  mapping (`mapping`), clipboard pasting (`clipboard`), the `sp` command line
  (`cli`), the IPC requests a widget serves (`ipc`), the state service's
  decisions (`state_value`), the lock screen (`lock`), the application
  catalogue read from desktop files (`vault`), and text helpers (`text`).
- `app/` is ordinary Rust around it: reading desktop files and icon themes,
  the widgets' sockets, the session-bus service, the `sp` runner and the
  conversions to the Wayland toolkit's types.
- `tests/` runs the library on concrete values.
