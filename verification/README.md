# yomimado

The verified core of the YomiMado desktop capture layer, written in Verus.

- `src/` holds the logic that the capture commands decide with: which monitor
  shows the selected display, how a selection maps onto the captured image,
  where the OCR overlay window goes, the translation popup's query, the PNG
  crop and its data URL, and the window steps that each command performs.
  Every verified function there carries a contract that Verus proves; the
  few calls into `std`, `serde_json`, `urlencoding`, `base64` and `image` go
  through small trusted wrappers whose contracts restate what those crates do.
- `app/` is the Tauri application around it: the commands, the screen
  capture with `xcap`, file output, and the floating-point geometry (selection
  normalisation, logical-to-physical scaling, popup anchoring), which rounds
  its results to whole pixels before the library takes over.
- `tests/` runs the library on concrete displays, selections and texts.
