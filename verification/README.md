# cpal_host

The decision-making core of the audio host backends of a cross-platform audio library
(CoreAudio, WASAPI, JACK, PipeWire, PulseAudio, sndio, AAudio, Web Audio, ScreenCaptureKit,
Emscripten), written in Verus and proved against its contracts.

Every backend talks to an operating-system service. What it decides from what the service
reports (which configurations a device supports, which wave format or sample spec a stream is
opened with, how a timestamp or latency is derived, how a property value or an error code is
read, what a stream loop does next) lives in `src/` with a contract, as functions from plain
values to plain values. The calls into the services themselves stay outside.

Layout:

- `src/format.rs`, `src/time.rs`: sample formats, stream configurations, errors, instants and
  durations shared by all backends.
- `src/timing.rs`, `src/text.rs`, `src/equilibrium.rs`, `src/latch.rs`: helpers shared by
  several backends (frame/duration arithmetic, monotone timestamps, decimal and list parsing,
  silence values, a start latch).
- one module per backend, holding its parsing, planning and timing rules; the PulseAudio
  module takes the protocol's limits from the `pulseaudio` crate, and the PipeWire connection
  state keeps its node registry in an `intmap::IntMap`.
- `tests/`: scenario tests on concrete values.
- `app/`: the thin layer that runs threads, clocks and the PulseAudio client around the
  library.

Public proof functions named `lemma_*` state the laws the library keeps across calls (round
trips, monotone clocks, balanced init/deinit counts, what a start followed by a stop leaves).
