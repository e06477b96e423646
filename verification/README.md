# gassim

A node-graph simulator for gas flows and control loops (PID controllers,
first-order lag elements, plots), drawn with egui and egui-snarl.

- `src/` is the verified library: the kinds of nodes and their pins
  (`kinds`), the connection rules and the wiring plans that keep one wire per
  input (`wiring`, `viewer`), how values travel along wires in a simulation
  step (`routing`), how pins are drawn (`pins`), the input channels of a plot
  (`plot`), and the PID controller's inputs and integral rule (`pid`).
- `app/` is the program: the egui front end, the simulation thread, and the
  floating-point models (PID controller, lag element, gas states with uom
  units), which call into the library for every decision above.
- `tests/` exercises the library on concrete graphs.
