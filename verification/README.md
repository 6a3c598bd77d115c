# sci_phi

The verified core of a smoothed particle hydrodynamics (SPH) fluid
simulation framework with recording and playback.

- `src/` is the library, written in Verus: playback buffering and staging
  (`playback`), recording state and measurement series (`measurement`),
  neighbor lists, spatial hashing and Morton codes (`neighbor_search`), the
  particle containers of the fluid and the boundaries (`fluid`, `sph`), and
  the checks of the parameter file (`setup`). The containers are generic over
  their position, vector and scalar types: they move particle data around and
  never compute with it.
- `app/` is ordinary Rust around the library: file and clock I/O, the
  floating-point parts (grid cells of positions, distance checks, kernel
  evaluation, time budgets of playback) and serializable forms of saved
  states.
- `tests/` exercise the library through its public interface.
