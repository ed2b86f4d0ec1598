# tetanes (Android front end, verified core)

The on-screen gamepad and the Android platform layer of the TetaNES emulator.

- `src/virtual_gamepad.rs`: what the on-screen action buttons and d-pad
  remember between frames and which joypad events each frame sends, with the
  laws that hold of it (press and release in separate frames, no repeated
  events while held, at most two events when the d-pad turns).
- `src/android.rs`: the SDK-level decisions and the order of the calls into
  the Java runtime that hide the system bars and set the display up, as step
  functions, with their laws; the file dialog and speech stubs.
- `app/`: the egui drawing and float geometry of the gamepad, and the JNI
  loops that perform the steps the library names.
