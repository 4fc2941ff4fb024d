# screencast

A screen-casting application for the local network: a caster shares its
screen, or an area of it, with a set of receivers; receivers show (and may
record) what the caster shares. Keyboard shortcuts pause and resume the
stream, blank the screen for the receivers, and end the session; an
annotation window draws shapes and text over the shared screen.

- `src/` is the verified library (Verus): pixel-format conversions, the
  frame encoding and its cutting into UDP datagrams and joining again, the
  viewers' registration messages and the caster's audience, the shortcut
  keys, the capture loop's decisions, the outline drawn around a chosen
  area, and the application's state machine (`gui::app::App::update`),
  which answers each user-interface message with the work to start.
- `tests/` runs the library on concrete values.
- `app/` is the program around it: the iced windows, the sockets, screen
  capture and the mouse cursor, the shortcuts file and screen recording.
