# koe

Koe is a voice input tool: hold or tap a hotkey, speak, and the transcript is pasted
where the cursor is. This crate is its core, written in Verus and verified:

- `asr`, `doubao`, `qwen`: the speech-recognition providers. Doubao's binary WebSocket
  protocol (frame headers, gzip payloads, server responses and errors) and Qwen's JSON
  event protocol (client events, server events, the queue of pending events), with the
  connection steps each takes.
- `proxy`: the HTTP CONNECT tunnel: which proxy, the request, reading and judging the
  answer.
- `json`, `codec`, `text`: JSON documents, base64 and text helpers.
- `config`: the configuration's sections and defaults, hotkey resolution, file
  locations and `${VAR}` substitution.
- `hotkey`, `audio`, `shell`, `logging`, `ffi`: the tap/hold hotkey state machine, the
  framing of captured audio, the shell's decisions (messages, timers, tray, overlay,
  paste, clipboard) and the types shared with it.

The library decides; it performs no I/O. `app/` is the Windows program around it: the
WebSocket and TCP connections, files, the keyboard hook, audio capture, the clipboard,
the tray and the overlay window. Each of them hands the library plain values and
performs what it returns.

Calls into `serde_json`, `flate2`, `base64`, `url`, `uuid` and the system clock stand
behind small trusted wrappers whose contracts say what the library relies on.
