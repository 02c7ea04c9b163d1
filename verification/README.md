# winit_android

Windows and input for applications that run in an Android activity, with the logic verified by
Verus.

- `src/` is the verified library. It touches nothing outside: the system's reports come in as plain
  values, and what is to be done goes out as a list of steps (`action::LoopAction`).
  - `event_loop`: iterations, waiting, batches of events, and the state that they share.
  - `motion`, `touch`, `pointer`: from motions of pointers to window events and to gestures made
    with several fingers.
  - `keyboard`, `ime`: keys and text input.
  - `window`: the one window and its text input state.
  - `input`: `WindowInputMapper`, which turns window events into a uniform stream of input.
  - `table`, `time`, `geometry`, `flag`, `event`, `android`, `action`: the types that these share.
  - `input_laws`, `touch_laws`, `loop_laws`: what holds across calls.
- `app/` talks to the system through `android-activity`, computes with coordinates in floating
  point, and runs the loop.
- `tests/` exercises the compiled library.

Number types are parameters of the library: `D` stands for double precision and `S` for single
precision. Nothing in the library computes with coordinates. A gesture is reported with the
positions that it goes from and to, and `app/` measures the distance between them.

Of the flags that other threads raise (`flag`), contracts say which operation on which flag a value
comes from, but not what the value is. Each function of the loop that reads one has a counterpart,
named `.._with`, that takes the value as an argument and says exactly what follows from it.
