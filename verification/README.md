# renegade_x_launcher

The back end of the Renegade X game launcher, split in two:

- `src/` — the verified library (Verus). Everything the launcher decides or
  writes out: the ICMP echo request used to ping game servers and its
  Internet checksum (with the proof that a finished request passes the
  receiver's checksum test), the recognition of a server's echo reply, the
  download progress report and its rate units, the update-state answers,
  the launcher self-update decision and hash check (SHA-256 via `sha2`,
  hex via `hex`), the game and installer command lines and messages, and
  the preparation of HTTP requests.
- `app/` — the Sciter event handler that performs the I/O (sockets,
  downloads, processes, files, the user interface) and asks the library for
  every decision and text.

`tests/` runs the library on concrete values.
