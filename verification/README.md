# easyray

A small frame for console programs that run either in a full-screen raylib
window or in a ratatui terminal. A program implements `Console` (in `app/`);
the frame reads the home directory, loads the program's state file, runs
frames while the program's update says so, and hands the state file back at
exit.

- `src/config.rs` — the home-directory variable and the state file's path.
- `src/session.rs` — `Runner`, which decides the next piece of outside work
  from what the last one reported, with its mathematical model.
- `src/laws.rs` — properties of every run, proved over that model.
- `app/` — the two front ends, which perform the work on raylib and ratatui.
