# polaris

A deterministic 2D n-body simulator (fourth-order Yoshida integration, time
warp in both directions, prediction of the future and of the past, osculating
orbit analysis).

The crate is split in two:

- `src/` is a library verified with Verus. It holds what does not depend on
  floating-point arithmetic: the structure-of-arrays body store (generic over
  its scalar type), the acceleration buffers, the sliding window of predicted
  positions, the layout of flat state vectors and of interleaved paths, the
  mouse/context-menu state machine, the analysis worker control and the
  labels shown in the interface.
- `app/` is the macroquad/egui program around it: the window, drawing, the
  analysis thread and the `f32` physics (gravity, integrator, orbit fitting).

Modules of the library: `objects`, `acceleration`, `predictor`, `render`,
`utils`, `state`, `analysis`, `orbit`.
