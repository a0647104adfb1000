# reestream

The decisions of an RTMP/SRT multistream relay with an HTTP control plane,
written in Verus: every function in `src/` carries a contract that Verus
proves.

## Layout

- `src/relay/` — the relay core: configuration and its validation, the
  setup wizard's edits, the publisher's decisions (which key publishes, which
  destinations get a push client, reconnects), rate, bandwidth, viewer and
  connection limits, IP filtering.
- `src/server/` — the HTTP server's logic: the legacy and product APIs'
  checks and replies, channels, drafts, events and their schedule, files and
  uploads, clips and transcriptions, studio sessions and overlays, chat,
  analytics, OAuth round trips, login and sessions, sealed state, HLS and
  FLV framing, recordings, metrics, webhooks, and the route tables.
- `src/ffmpeg/` — FFmpeg command lines, binary resolution, the restart
  policy of a supervised process.
- `src/srt/` — SRT settings, the bridge's decisions, errors.
- `src/fresh.rs`, `src/weburl.rs`, `src/io_error.rs` and the wrappers marked
  `#[verifier::external_body]` — the trusted calls into `uuid`, `url`,
  `sha2`, `hmac`, `aes-gcm` and std, each with the contract it is believed to
  meet.
- `tests/` — tests of the library on concrete values.
- `app/` — what talks to the outside world: configuration files, settings
  from the environment, FFmpeg processes, state files, the OpenAPI document,
  and the computations made in floating point.
