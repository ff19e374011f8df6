# rocket_sim

A small rocket flight simulator exposed to Python.

- `src/` is the verified library: the flight log (`history`), its column
  queries and their errors, the engine's power latch and the step control of a
  simulation run (`flight`), and the generic three-component vector the log is
  made of (`vector`).
- `app/` is the Python extension module: the floating-point physics (vector
  arithmetic, drag, thrust, rotation, the PID controller) and the Python
  classes, built on the library.
