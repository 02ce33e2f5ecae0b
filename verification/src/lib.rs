//! Mistral speech-to-text backend for Super STT.
//!
//! The backend answers the Super STT `/v1` batch contract and runs realtime
//! transcription sessions over a WebSocket. This library holds what it decides
//! and computes; reading, sending and floating point stay with the component
//! that embeds it.
//!
//! * [`batch`] routes batch requests and decides on the course of a
//!   transcription; [`batch_laws`] states what holds of every one.
//! * [`session`] decides on the course of a realtime session, over the
//!   [`events`] that it sees; [`session_laws`] states what holds of every one.
//! * [`frames`] writes and reads the JSON frames, [`headers`] reads the settings
//!   that the daemon injects, [`url`] the upstream that they name.
//! * [`wav`] and [`multipart`] shape the audio that is sent in a batch request.
//! * [`json`] and [`armor`] hold what is believed of `serde_json` and `base64`;
//!   [`text`] and [`bytes`] are the operations that the rest is built on.

pub mod armor;
pub mod batch;
pub mod batch_laws;
pub mod bytes;
pub mod events;
pub mod frames;
pub mod headers;
pub mod json;
pub mod multipart;
pub mod session;
pub mod session_laws;
pub mod text;
pub mod url;
pub mod wav;

pub use frames::audio_append_json;
pub use frames::done_json;
pub use frames::error_json;
pub use frames::is_stop;
pub use frames::parse_start;
pub use frames::parse_transcript;
pub use frames::preview_json;
pub use headers::header;
pub use multipart::build_multipart;
pub use url::parse_base;
pub use url::ws_url;
pub use wav::encode_wav;
