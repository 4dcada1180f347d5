# qgui

`qgui` is a small GUI session manager. It starts a desktop inside a container
(`Xvfb`, `xfce4`, `x11vnc`, and noVNC with `websockify`), watches it, tears it
down, and hands out the variables that programs need to take part in it.

## Layout

- `src/` is the library, verified with Verus. It touches no file, process or
  socket.
  - `startup`, `supervise`, `teardown`, `doctor`: what a command does, one action
    at a time, with laws on whole runs (what is started in which order, who is
    signalled, when a session counts as ready, when the time is up).
  - `target`, `clock`: what an action is about (the file, the port, the signal, the
    program), and time that is set aside.
  - `active`, `component`: whether a session can be used, and how its programs
    are doing.
  - `session`, `env`, `shell`, `json`: the session, and its variables for a shell
    or as JSON. A shell that reads the output sets exactly these variables.
  - `command`, `exit`: the programs with their arguments, and how `qgui run` ends.
  - `paths`, `pidfile`, `resolution`, `status`, `text`: files, pids, resolutions,
    what is printed, and plain text.
- `app/` is the program around it: the command line, and the files, processes,
  signals and sockets.
- `tests/` runs the library.

The text of JSON objects comes from `serde_json`; `src/json.rs` holds what is
taken from it on trust.
