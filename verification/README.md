# Super STT: Mistral backend

A speech-to-text backend for Super STT. It forwards audio to Mistral's hosted
transcription API, as batch requests and as realtime WebSocket sessions.

* `src/` is the library, verified with Verus: routing, request shaping, JSON
  frames, and the two state machines that decide on the next step of a
  transcription and of a session. `src/batch_laws.rs` and `src/session_laws.rs`
  state what holds over whole courses of events.
* `app/` is the component around it: `wasi:http` and WebSocket I/O, and turning
  floating-point audio into 16-bit samples.
* `tests/` runs the library on concrete values.

What is believed without proof of `serde_json`, `base64` and the standard
library stands in `src/json.rs`, `src/armor.rs` and `src/headers.rs`, each with
a doc comment that says what is claimed.

License: GPL-3.0-only.
