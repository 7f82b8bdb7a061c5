# toolbelt

The verified logic of four small command-line tools, written in Verus:

- `aicommit` — a commit-message generator: fills a template with the staged diff
  (`template`), renders the diff lines as patch text (`diff`), builds the request to a
  chat model and takes the message from its reply (`commit`).
- `lux` — a daemon that switches the desktop between light and dark from an ambient-light
  sensor: the thresholds with their dead zone, the rounded percentage for the status bar, the
  texts sent to the mode daemon, and the decision for each event of its loop (`control`).
- `reddit` — a wallpaper downloader: the listing query, the verbosity, the output directory and
  the file name each wallpaper is saved under (`cli`, `files`).
- `weather` — the weather client's settings.

`src/` is the library, proved by Verus. `app/` holds the programs around it: command-line
parsing, the network, the repository, the file system and the event loop, which ask the library
what to do and do it. `tests/` runs the library on concrete values.
