# firefox_cli

A command-line tool that drives Firefox over its Marionette protocol and reads
the tabs of Firefox's saved session, with its logic verified by Verus.

## Layout

- `src/` is the verified library:
  - `json`: the JSON value the logic reads, and the calls into `serde_json`
    that read and write JSON text;
  - `text`: building and searching text, decimal numbers;
  - `protocol`: frames `<length>:<json>`, numbered requests, replies;
  - `flow`, `browser`, `get`, `tabs`: each browser command as a state machine
    from an event (a reply, a timer, a finished write) to the next step;
  - `commands`: what a parsed command line does;
  - `profiles`, `session_file`, `session`, `session_list`: finding the
    session-recovery file, decoding it, and listing, searching and counting
    its tabs.
- `app/` is the program around it: argument parsing, the TCP socket, the
  file system, sleeping, and printing. It performs the steps the library
  decides.
- `tests/` runs the library on concrete values.
