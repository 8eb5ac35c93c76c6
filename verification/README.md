# scanner_signature_app

An Android app that activates a signature pad by scanning a QR code and then
captures a handwritten signature and saves it as a PNG.

- `src/` is the verified core (Verus): the camera runtime shared between the
  camera thread and the UI (the two-phase QR hand-off that survives an
  event-loop restart, the preview frame buffer, the camera-permission flow),
  YUV-to-RGBA preview conversion and Y-plane extraction, QR decoding over
  `rqrr`, Bresenham rasterising of signature strokes and PNG encoding over
  `image`, the signature pad's stroke model, and the screen state machine
  with its buttons and the system back action. `src/laws.rs` states the
  properties that span several operations.
- `app/` is the unverified shell: the Xilem/Masonry UI, painting, JNI and
  NDK Camera2 calls, threads, and file output. It hands platform readings to
  the library as plain values and carries out the actions the library
  returns.
- `tests/` exercises the library on concrete values, including a QR code
  decoded through `rqrr` and PNGs decoded back through `image`.
