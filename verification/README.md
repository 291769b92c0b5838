# WarpStash

A clipboard history for Wayland: a daemon that watches the clipboard and
stores each new payload in SQLite, and a keyboard-driven picker overlay that
lists, searches, pins, deletes and pastes stored entries.

The library (`src/`) is verified with Verus. It holds:

- `types` — entries, content types, and the conversion of stored rows;
- `preview` — text and image previews (first lines, 200-character cut, format and dimensions);
- `dedup` — BLAKE3 content hashes and consecutive-duplicate detection;
- `capture` — which MIME type to read from an offer, which payloads to keep,
  and the entry stored for a payload;
- `config` — configuration sections, their defaults, and file locations;
- `picker` — the picker's state machine and key mapping;
- `display` — row labels, size units and window centring;
- `theme` — parsing `#RRGGBB[AA]` colours;
- `paste` — what is placed on the clipboard when an entry is pasted;
- `text` — string helpers specified over characters.

The application (`app/`) does the input and output: Wayland, SQLite,
configuration files, the iced user interface and clipboard writes. Run it
without arguments for the daemon, and with `ui` for the picker.

Files: the configuration is `${XDG_CONFIG_HOME:-~/.config}/warpstash/config.toml`
and the database `${XDG_DATA_HOME:-~/.local/share}/warpstash/clipboard.db`.
Key bindings are read from the `[keys]` section of the configuration.
