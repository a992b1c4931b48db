# vidplayer

The media core of a video player and of a randomized video grid, written in
Verus. Every function in `src/` carries a contract; all are proved against
their contracts except the few trusted calls into std and `rand` listed at
the end, whose contracts are assumed.

- `src/format.rs`, `src/stream.rs` — pixel and sample formats, channel
  layouts, time bases, packets, decoded frames, stream descriptions.
- `src/planes.rs`, `src/audio_data.rs` — packing strided frame planes into
  contiguous buffers and back, interleaving planar audio.
- `src/codec_names.rs`, `src/transform_config.rs`, `src/encode_config.rs`,
  `src/decode_flow.rs`, `src/probe.rs`, `src/sink.rs`, `src/source_config.rs`
  — what each stage of the FFmpeg pipeline accepts and decides: format and
  codec names, converter and encoder settings, the reaction to each codec
  status, stream descriptions from probed values, packet routing and
  timestamp rescaling, network open options.
- `src/frame_queue.rs`, `src/packet_queue.rs` — bounded, closable FIFO queues
  between the pipeline's threads.
- `src/playback.rs`, `src/audio_clock.rs` — playback states, seeking, frame
  timing against the clock, and the audio callback's plan.
- `src/grid.rs`, `src/ready_videos.rs`, `src/selection.rs`,
  `src/media_files.rs` — the grid layout, the pool of videos and the random
  choice of what to play next.
- Trusted, not proved: `src/random.rs` (random choices by `rand`),
  `src/time_specs.rs` (`Duration::clone`), and the three std calls of
  `src/media_files.rs` (file extension, lowercase, path equality) — each
  with the contract it is assumed to meet.

`tests/` exercises the library on concrete values. `app/` is the grid
program around it: window and keyboard handling, FFmpeg and audio-device
calls, threads, and the floating-point layout and volume arithmetic.
