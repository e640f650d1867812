# fluid_sim

A small stable-fluids toy on a 40 x 30 grid with a one-cell boundary.
Velocities and dye are stored as `u16` codes (velocity signed with bias
`0x8000`, dye linear in `0..=65535`).

- `src/` is the verified library (Verus): cell indexing, the grid state,
  the boundary conditions on the fixed-point fields (and, for any cell type,
  the layout of which cell is written from which), the dye-to-RGB565
  conversion, the RGB565 colour and a packed 10-bit RGB colour.
- `app/` is the program around it: the `f32` stages of the simulation
  (diffusion, advection, pressure projection, force and dye injection) and a
  frame loop that reads held keys from standard input and writes the cell
  colours of each frame to standard output.
- `tests/` exercises the library, including checks that its integer
  boundary and colour conversions agree with the `f32` codec the simulation
  stages use.
