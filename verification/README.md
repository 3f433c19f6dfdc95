# pico

The logic of a small terminal text editor, with its behaviour stated in
contracts and proved.

- `src/config.rs`: the settings, the built-in defaults, and the manager that
  falls back to them when the configuration file cannot be read or parsed.
- `src/cursor.rs`: positions, cursor movement over a document given by its
  line lengths, page and jump keys, scrolling the view to the cursor, and the
  laws about them (the cursor stays in the document, Left undoes Right and
  the other way round, scrolling shows the cursor and is idempotent).
- `src/editor.rs`: the editor's state and its decisions on each key press,
  in two steps around the change to the document; quitting with unsaved
  changes; saving and searching; what each screen line shows.
- `src/prompt.rs`: editing the answer of a prompt.
- `src/render.rs`: the welcome line and the status bar.
- `src/status.rs`: status messages and how long they stay on screen.
- `src/text.rs`: UTF-8 byte lengths, cutting text to a width, decimals.
- `app/`: reading the configuration file, converting terminal keys, drawing
  on a termion terminal, and the loop that carries out the library's
  decisions on a document and a screen.
