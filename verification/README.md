# lds-cosmic-applet

A COSMIC panel applet for LDS, the Linguistic Dispatch System speech-to-text
daemon: a mic toggle, the daemon's state and last transcript, and live
settings.

- `src/` is the library, with the proofs of its contracts:
  - `daemon`: the daemon's states and configuration, the mode switch;
  - `json`: the JSON documents the daemon sends, and lookups in them;
  - `protocol`: the requests the applet sends and how it reads the
    daemon's messages;
  - `applet`: the applet's state machine (message in, new state and effect out);
  - `view`: what the panel button and the popup show;
  - `ipc`: the connection to the daemon as a state machine (connect,
    handshake, read frames, wait and retry);
  - `decimal`, `text`: numerals and string comparison;
  - `laws`: properties across operations, proved.
- `app/` is the program around it: the COSMIC widgets, the socket and
  WebSocket I/O, JSON text in and out, and floating-point sliders.
- `tests/` runs the library on concrete values.
