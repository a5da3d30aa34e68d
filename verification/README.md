# brush

The logic of training 3D Gaussian splats, verified with Verus: the per-splat
projection kernels with their gradients, refinement, the optimization step, and
the rules by which datasets are read.

## Numbers

Kernels and training formulas are single-precision arithmetic that a device
carries out, but for the schedule of the learning rate, which is in double
precision. The library does not compute those numbers. It records the operations
as a graph (`src/expr`), and the contracts state the recorded operations exactly,
whatever the rounding of the device is. Over the reals the graphs have a value and a
rate of change (`src/expr/semantics.rs`); the laws are stated there. That a
backward kernel is the gradient of its forward kernel is one of them.

## Layout

- `src/expr`: recorded numbers and tests, their meaning, and real algebra.
- `src/number.rs`, `src/text.rs`, `src/path.rs`: numbers by their bits, text, paths.
- `src/cube`: vectors and matrices of recorded numbers, and their laws.
- `src/camera_model`: the Kannala-Brandt and thin-prism fisheye models, their
  Jacobians and gradients, and how these behave along a ray (`homogeneity.rs`).
- `src/kernels`: forward and backward projection, the unscented transform, and the
  proof that the gradients are gradients (`gradients.rs`, `chain.rs`,
  `unscented.rs`, `splat_gradient.rs`).
- `src/render_bwd.rs`: the backward pass of a render.
- `src/train`: the training step, its schedule and refinement. `meaning.rs` holds
  what their formulas do over the reals.
- `src/dataset`, `src/config.rs`: COLMAP and nerfstudio datasets.
- `app`: command lines, files, a device that computes recorded numbers, and the
  loops around the library.
- `tests`: the library run on concrete numbers, gradients against central
  differences among them.
