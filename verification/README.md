# rapidcap

The logic of RapidCap, a screen capture panel for Windows and macOS, as a
Verus library: every function in `src/` carries a contract that Verus proves.

- `state`, `controller`, `reactions`: the capture state machine (idle,
  selecting, countdown, recording, paused, finalizing, error), the commands
  that drive it, and what the panel and the overlay do on each transition.
- `geometry`, `screenshot`: regions, drags, crops of a captured frame and the
  monitor a region is taken from.
- `naming`, `settings`, `logs`: output names and folders, settings
  validation, and which log files are kept.
- `image_file`, `clipboard`: PNG or JPEG by size, and the clipboard formats a
  screenshot or a file is offered in.
- `recording`, `avfoundation`: the display a region is recorded from, the
  FFmpeg command lines on Windows and macOS, and the bookkeeping of a
  recording made of one segment per unpaused stretch.
- `panel`, `hud`, `menu`, `tray`, `icons`, `platform`: the words and states
  the panel, the recording bar, the menus and the tray show, the shortcut
  table, and the window geometry the platform layer needs.

`app/` is the program around it: files, processes, the clock, JSON settings
and the tray's pixels. `tests/` runs the library on concrete values.
