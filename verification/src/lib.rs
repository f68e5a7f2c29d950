//! Verified building blocks of the audio host backends: timing, format negotiation,
//! buffer-size arithmetic and the small parsers and policies the backends share.
pub mod format;
pub mod time;
pub mod timing;
pub mod wasapi_policy;
pub mod wasapi_format;
pub mod text;
pub mod pipewire;
pub mod pipewire_client;
pub mod equilibrium;
pub mod sndio;
pub mod jack;
pub mod coreaudio;
pub mod oboe;
pub mod pulseaudio;
pub mod emscripten;
pub mod custom;
pub mod wasapi_com;
pub mod wasapi_loop;
pub mod web;
pub mod latch;
pub mod screencapturekit;
