# toy_interferometer

A toy radio interferometer that simulates the uv-coverage of LOFAR, e-MERLIN,
LAMBDA and a default pair of stations, for a WebAssembly front end.

- `src/` is the library, verified with Verus:
  - `names`: the byte-wise order of station names and its laws;
  - `table`: `AntennaTable`, stations keyed by name and walked in name order,
    with insertion, construction from a list of pairs (the last pair of a name
    wins) and selection by an antenna mask;
  - `catalogue`: the station catalogues (positions held exactly, in units of
    10⁻⁸ m) and the choice of catalogue by array name;
  - `observation`: channel width per array and the order of baselines;
  - `uv`: merging u and v into one flat vector (through itertools).
- `app/` is the browser-facing part: wasm-bindgen entry points and the
  floating-point sky geometry (nalgebra, ndarray).
- `tests/` exercises the library, including a check that every catalogue
  position converts back to the surveyed coordinate in metres exactly.
