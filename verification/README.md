# openpelta

Verified core of OpenPelta, an open replacement for ASUS Armoury Crate Gear
for the ROG Pelta headset. The library (`src/`, checked by Verus) holds the
logic; `app/` is the Tauri desktop shell that does the I/O around it.

- `hid/protocol.rs` — Report 0xCC framing and reply matching.
- `hid/pelta.rs` — interface selection, command frames, reply decoding, and
  the request/reply exchange as a state machine driven by the HID layer.
- `hid/mod.rs` — device types, error texts, RGB dispatch, the `PeltaDevice` trait.
- `audio/` — Equalizer APO preset text and `config.txt` include, write-retry
  policy, the whole EasyEffects preset document (every key and value; `app/`
  only serialises it to JSON), backend selection and error texts.
- `profiles/`, `rgb/` — profiles, their defaults and the steps that apply them.
- `device_slot.rs`, `tray.rs`, `hotkeys.rs`, `foreground.rs`, `installer.rs` —
  the decisions of the application shell (hotkey dispatch, the foreground
  watch step and its reporting law, installer checks and error texts).
- `text.rs` — decimal/hex rendering, search, trimming, replacement, path joining.
