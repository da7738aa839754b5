# wiredesk-client

The client side of WireDesk: a Mac or Windows machine that types, points and
copies on another one over a serial cable. The host on the other side shows its
screen on a monitor of its own; what travels is input, the clipboard, and shells.

`src/` is a Verus library. It decides; it neither reads nor writes anything:

- `protocol`: messages and packets as values
- `input`: keys and modifiers to scancodes, mouse and keys to messages
- `keyboard_tap`: which key events go to the host, on a Mac and on Windows
- `clipboard`: what is remembered, what is sent at a look at the clipboard, how a
  payload is cut into chunks and put together again
- `clipboard_files`: file URLs on the clipboard
- `link`: reader, writer, and the supervisor that opens a lost link again
- `exec_bridge`, `shell_channel`: who gets shell events, who may use a shell
- `ipc`: a command run for another program, a console relayed to a terminal
- `config`: settings, command line, window geometry
- `app`: the window's state, its settings panel and its shell
- `text`: the few operations on text that the others need

Each function says what it returns and what it changes: over views where the type
has one, as most of those with a buffer or a queue do, and over the fields of the
others. Functions named `law_*` are proofs of what holds of the library as a
whole: that a payload arrives as it was sent, that what was received is not sent
back, that nothing stays pressed on the host, that a claim ends with its holder.

What is taken on trust: the PNG codec of the `image` crate
(`clipboard/png.rs`), the bytes that a slice feeds to a hasher
(`clipboard.rs`), and three conversions of the standard library between bytes
and text (`text.rs`, `ipc.rs`).

`app/` is the program around it: window, threads, files, the socket, the system's
keyboard hooks. What it asks of the wire and of the desktop is behind the traits
`Wire` and `Desktop`.
