# microtun-telnet

An interactive Telnet client with YMODEM file upload. What the client decides and
computes is a library verified with Verus; sockets, files and the terminal are
handled by a thin program around it.

- `src/` is the library.
  - `telnet`: decoding, option negotiation, escaping, and the steps of a read
  - `keymap`: the bytes that each key sends
  - `session`: modes, the `Ctrl-A` commands, and the course of an upload
  - `file_picker`, `listing`: the picker and the order of its entries
  - `screen`, `scene`: where things are drawn, and what is drawn
  - `upload`: what the YMODEM sender is told, and what its errors mean
  - `cli`: the command line and the connection it asks for
  - `text`: decimal numbers and the order of names
- `app/` is the program: arguments, the TCP connection, directories, drawing, and
  the YMODEM transfer.
- `tests/` runs the library.

Functions named `law_...` state what holds of several functions together. The items
marked `external_body` are trusted: each makes a call into `clap`, `ratatui`, `vt100` or
the standard library, and says above it what it takes on trust.
