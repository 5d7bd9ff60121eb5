# mdviewer

A borderless Markdown viewer built on a web view. The library (`src/`) holds
every decision the program takes, each with a contract proved by Verus:

- `keybindings`: which keybindings are in use (the file's text when it is
  JSON, else the built-in ones and a warning).
- `json`: the one call into `serde_json`, which decides whether a text is JSON.
- `instance`: the single-instance hand-off over a named pipe (request lines,
  their decoding, the listening loop as a step function, the pipe name in
  UTF-16, the path handed on).
- `ipc`: the commands that the web view sends and the replies it receives.
- `window`: how the window reacts to what happens to it.
- `text`: trimming, comparing and joining strings, specified exactly.

`app/main.rs` performs the I/O: files, the pipe, the window (`tao`), the web
view (`wry`), file dialogs (`rfd`) and JSON (de)serialisation (`serde`). It
embeds `assets/app.html`, `assets/sample.md` and `assets/logo.rgba`, which
ship with the program's resources.
