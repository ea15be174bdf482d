# moq_xr

A Media-over-QUIC node for XR streaming: it publishes a synthetic H.264
video stream and the headset's poses to a relay, and bridges the relay to a
headset over a websocket.

- `src/` is the verified library (Verus): the device wire framing
  (`framing`), the bridge's announcement tracking and routing decisions
  (`bridge`), the video frame pattern, encoding step and group scheduling
  (`video`), the encoder and the record of frames handed to it (`encoder`),
  the relay address (`relay`), the pose sampler's focus gate (`pose`), track names (`tracks`)
  and the settings (`config`).
- `app/` is the program around it: configuration loading, the relay
  sessions, the websocket server, OpenXR sampling and the async loops that
  perform what the library decides.
- `tests/` exercises the library on concrete values.
