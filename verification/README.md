# wavy

Real-time stereo audio recording and playback on ALSA.

- `src/` is the verified library: the S16_LE frame layout (`frame.rs`), the
  error type and its decimal texts (`error.rs`), the opening of a PCM and its
  hardware parameter negotiation as a state machine (`setup.rs`), and the
  player's and recorder's per-period buffers (`stream.rs`).
- `app/` loads the ALSA shared object, performs the device calls each state
  machine asks for, registers the PCM's descriptor with the event notifier
  (`smelling_salts`) and drives the `Player` and `Recorder` futures.
- `tests/` runs the library on concrete values.
