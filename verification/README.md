# scapp

The backend of the StreamSnipe desktop streamer: it captures a window or a
monitor with system audio and an optional microphone, encodes H.264 and Opus,
and sends RTP to a media server, with a JPEG preview, local MP4 recording,
Discord Rich Presence and clip uploads.

The library in `src/` is written in Verus. The backend's decisions are
executable functions there with contracts proved against a mathematical model:
which capture sources, encoders and microphones are used and how they are
configured, the caps each capsfilter pins, the whole pipeline as a build plan
(`graph`), the session state machine (initialisation, start, clean-up,
recording, mute, preview), what bus messages do and how an audio failure is
contained, which windows and monitors are listed and in what order (from the
records the X server or Win32 reports), their thumbnails, the diagnostic
counters, the Discord presence state machine and the autopost upload request.
Laws that span several calls are stated as public proof functions (for
instance `graph::plan_makes_and_adds_before_use`, `session::recording_round_trip`,
`monitors::monitor_order_is_stable_sort`). The per-second rates the statistics
logger prints are floating-point and stay in `app/`; the library hands out the
counts.

The calls into the `image` and `base64` crates and the few std functions Verus
has no specification for are wrapped in `codecs.rs`, `text.rs` and
`autopost.rs`; their contracts are trusted and each says what it claims.

`app/` is plain Rust around the library: it talks to GStreamer, the X server, Win32,
Discord and the autopost service, carries out the library's plans and reports
their outcomes back. `tests/` runs the library on concrete values.
