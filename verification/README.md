# youtui_rs

A terminal YouTube client: search through Invidious and Piped instances,
play with mpv (or vlc, mplayer, ffplay), download with yt-dlp, and keep
history, saved videos and playlists.

The crate is split in two.

- `src/` is the library, written in Verus. It holds the application's
  state and every decision it makes: what a key or a mouse click does in
  each view, how lists scroll and filter, which instance is tried next,
  how yt-dlp and mpv are invoked and how their output is read, how the
  settings rows cycle, how history is deduplicated, and what a player
  cache answers. Each public function states what it returns or changes
  in `requires` / `ensures`, and the laws that relate several functions
  (undoing a move, going round the options, reading back what was
  written) are public proof functions.
- `app/` is the program around it: the terminal, the network, the SQLite
  database, child processes and files. It performs the commands the
  library hands back and feeds it the events that come in.

`tests/` runs the library on concrete values.
