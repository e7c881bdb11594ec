# dji_referee

Verified protocol logic for a RoboMaster robot: the DJI referee-system frame
format, the payloads that travel in it, the client UI commands, the CAN
frames of DJI and DaMiao motors, and the decisions of the firmware tasks
(device heartbeats, system mode, status LED, image transmission receiver).

Every function in `src/` is verified with Verus against a contract stated
over mathematical models (`Seq<u8>` for byte strings, spec functions for
encodings), except five small wrappers in `src/tasks/rxbuf.rs` that call
`heapless::Vec`: their contracts, taken from `heapless`'s source, are
trusted.

## Layout

- `src/crc.rs`, `src/bytes.rs` — DJI CRC8/CRC16 and little-endian byte
  encodings.
- `src/frame.rs`, `src/msger.rs` — the `Validator` and `Marshaler` traits,
  `RawFrame`, and `Messager::pack` / `Messager::unpack`, with the laws that
  unpacking a packed frame gives its command ID, sequence number and payload
  back, and how far a failed unpack lets the caller skip.
- `src/gentrans`, `src/pictrans`, `src/ui` — payload codecs; each type
  proves that decoding its encoding gives the value back.
- `src/motor` — motor feedback fields and control frames.
- `src/system` — heartbeats, the watch list of devices and the system mode.
- `src/tasks` — one step of each firmware task, and the fixed-capacity
  receive buffer (a `heapless::Vec`) of the image transmission link.
- `app/` — the host program around the library: shared state in atomics,
  floating-point unit conversions, text and `defmt` forms.
- `tests/` — tests of the library through its public interface.
