# onflight

Verified reader for the `.onflight` binary data logs written by the Bolder Flight
Systems OnFlight Hub.

- `src/checksum.rs`: Fletcher 16, with its closed form.
- `src/frame.rs`: the 50 Hz `Frame`, how each field decodes from a payload, and the decoder.
- `src/parser.rs`: metadata header, search for the first frame, scan of the frame run, `parse`.
- `src/columnar.rs`: `Columns`, the struct-of-arrays transpose of the frames, with integer accessors.
- `app/lib.rs`: floating-point unit conversions and a `Display`able error, outside the verifier.
