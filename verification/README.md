# clipshare

Shares the clipboard between machines of one network over TLS.

- `src/` is the verified library:
  - `config`: the configuration in `~/.config/clipshare.toml`, its errors and their
    messages, what loading yields for each outcome of reading and parsing the
    file, the step-by-step creation of the default file, and what the program
    does after loading or creating it;
  - `session`: the role the command line selects, the server's port, the range
    of consecutive ports the server binds and the client connects to in turn,
    and the address text a client connects to;
  - `decimal`: decimal numerals of port numbers;
  - `handshake`: the UDP announcement of the legacy discovery mode;
  - `tls`: the signature schemes the client accepts.
- `app/` is the program around it: argument parsing, file I/O, TOML, the
  networking and TLS set-up, and the clipboard synchronisation.
- `tests/` runs the library on concrete values.
