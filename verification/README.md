# quic_transfer

A QUIC file-transfer sample whose decisions are proved with Verus.

- `src/` is the verified library: the chunked sender and receiver of a
  transfer (`transfer`), the accept and connection loops of the server
  (`server`), the controller loop and the shell commands of the
  peer-to-peer node (`controller`, `command`), start-up decisions
  (`startup`), and the TLS and transport configuration of the QUIC
  endpoints (`endpoint_config`), which calls `rustls` and `quinn` through a
  few trusted wrappers.
- `app/` holds the three programs (`client`, `server`, `p2p-sample`
  subcommands): argument parsing, files, sockets, tasks and logging.
- `tests/` runs the library on concrete values.
