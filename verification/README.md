# Showroom

A terminal front end: a shell in a pty, an alacritty terminal, and an egui window.

- `src/` is the verified library (Verus): color translation and the default
  palette (`color`), keys, modifiers and their encoding for the pty (`keys`),
  what to do with terminal and input events (`terminal`), the grid sizes and the
  resize decision (`geometry`), and the screen's text layout (`screen`).
- `app/` is the program: it owns the window, the pty, the terminal and the
  clipboard, converts their values to the library's, and performs what the
  library decides.
- `tests/` exercises the library with the real outside crates linked.
