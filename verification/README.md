# sony_anc

A Waybar-friendly noise-control switcher for Sony WF-1000XM5 earbuds, with its
protocol and decision logic verified in Verus.

## Layout

- `src/` — the verified library.
  - `frame.rs` — message types, the frame format (start byte, escaped body with
    kind, sequence number, big-endian length, payload and checksum, end byte),
    `encode_frame`, and the byte-at-a-time `FrameParser`. `law_frame_roundtrip`
    proves that parsing an encoded frame gives back what was framed.
  - `payload.rs` — `parse_payload` and the payload types, with the exact
    decoding stated in `payload_result`.
  - `command.rs` — noise modes, batteries, equalizer presets, the commands
    sent to the earbuds and `build_command`, which rejects out-of-range levels
    and non-customizable presets.
  - `link.rs` — the conversation state: acknowledgement waiting, sequence
    numbers, what each received byte brings, and what a chunk of received
    bytes brings (acknowledgements to send, frames to report, last status).
  - `anc.rs` — command-line decisions: mode cycling, ambient level and voice
    defaults, equalizer band merging, and the commands they produce.
  - `watch.rs` — the state kept by the long-running `watch` mode and the
    deduplication of status lines.
  - `output.rs` — the text, tooltip and class of every status-bar line.
  - `device.rs` — which Bluetooth device a name or address hint selects.
- `tests/` — the tests.
- `app/main.rs` — the program: arguments, Bluetooth, async I/O, signals, JSON.

## Usage

```bash
sony-anc                     # status (default)
sony-anc cycle next          # ANC -> Ambient -> Off
sony-anc set ambient --level 15 --no-voice
sony-anc equalizer set --bass 3
sony-anc watch               # stream status lines; SIGUSR1/SIGUSR2 cycle
sony-anc --device "WF-1000XM5" status
```

`SONY_WF1000XM5_DEVICE` may hold a name substring or a MAC address.
