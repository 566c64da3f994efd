# desktop_launcher

A launcher for desktop applications in front of rofi's script mode.

- `src/` is the verified library: which `.desktop` files become launcher lines
  (shown applications with a name and a command, each application id once),
  what running a line starts (`/bin/sh -c` with the command's field codes taken
  out, or `xdg-open` for a file), and the rofi protocol's decisions (the message
  that shows the entries, and what an incoming event means).
- `app/` is the program around it: it finds and reads the desktop files, speaks
  JSON with rofi over stdin/stdout, and starts the chosen program. It stops on
  a file that reading would panic on: a line that starts with `=`, or a NUL in
  a name that gettext is asked to translate.
- `tests/` exercises the library on concrete files and messages.
