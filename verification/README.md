# maion

The packet layer of a Minecraft (protocol 754, version 1.16.5) proxy,
verified with Verus.

- `src/wire.rs` models the wire format: each field reader is a step from the
  remaining bytes to a value and the bytes left; `src/raw_packet.rs` reads
  and writes packet bodies against that model, and `src/laws.rs` proves that
  every field reads back as it was written.
- `src/protocol/v754/` holds the packet kinds, their packet ids, the id
  tables and parser registry (`get_functions`), and one module per packet
  with its fields, reader, log line and the proxy's reaction to it
  (`edit_packet`).  Chunk data carries the bit-packed block palettes; its
  sections are proved to read back after the proxy writes them again.
- `src/nbt_blob.rs` passes NBT compounds to and from the `hematite-nbt`
  crate; `src/fmt.rs` and `src/utils.rs` build log lines and chat messages.
- `app/` holds what is not verified: the websocket exchange with the
  authentication service, the connection queues, serde forms of a few
  types, and the log lines of packets that carry floats or NBT data.
