# inputsync

Keyboard, mouse, clipboard and file sharing between machines, over QUIC.

- `src/` is the library, verified with Verus: the frame format and message
  types, the handshake and certificate pinning, screen-edge routing and the
  session's decisions, clipboard echo prevention, file-transfer bookkeeping
  with BLAKE3 checks and resume offsets, the daemon's answers to GUI and CLI
  requests, the GUI's daemon launch policy, and the Windows backend's input
  translations.
- `app/` is the daemon program around it: the configuration file, the IPC
  socket, the QUIC endpoints and the session loops. It performs what the
  library decides.
- `tests/` exercises the library.
