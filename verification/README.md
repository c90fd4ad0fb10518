# gb26875

A library for the GB/T 26875.3 fire remote monitoring communication
protocol, written in Verus: frames with their control units and checksums,
the information objects and application data units, builders, stream
parsers and codecs, and the registry of user defined extension codes. Each
byte encoding is stated as a mathematical function of its value and each
decoder as a relation between bytes and outcome; the functions are proved
against those statements, and laws such as "decoding reads back what
encoding writes" are proved as proof functions named `law_*`.

Layout:

- `src/` the verified library:
  `protocol` (codes and constants), `frame` (timestamp, control unit,
  checksum, packet), `info_object`, `data_unit` (upstream, downstream,
  identifier, raw user defined units), `builder`, `parser` (frame detector,
  stream buffer, validator, packet and batch parsers), `codec` (packet, data
  unit, general decoders and encoder, length-field framing), `extension`
  (code and identity registry, version texts, generic type registry),
  `text` and `wire` (decimal and hexadecimal text, little-endian fields).
- `app/` plain Rust around it: the process-wide registries behind locks,
  extensions as trait objects, tokio-util codecs, serde forms, error
  messages, floating point values and the packet dump tool.
- `tests/` tests of the library.
