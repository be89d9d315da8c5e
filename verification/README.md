# lcdd

A service that keeps a background image, with an optional live dashboard
overlay, on the 320x320 LCD of an ASUS liquid cooler (`VID:PID 0b05:1ca9`),
talking to it over HID.

- `src/` is the library, verified with Verus: the HID framing of a JPEG into
  1024-byte reports, the JPEG header scan, the image preparation pipeline
  (decoding, rotation and resampling are done by the `image` crate behind
  specified wrappers), animations, the configuration schema with its
  validation and path resolution, configuration reloads, the service loop and
  the upload sequence as state machines, and the dashboard texts.
- `app/` is the program around it: reading files and the command line,
  logging, the HID device, system metrics, and the `iced` renderer of the
  dashboard overlay. It performs the steps the library's state machines ask
  for and reports back.
- `tests/` exercises the library on concrete inputs.
