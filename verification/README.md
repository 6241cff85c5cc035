# hertzian

An FFT-accelerated solver for frictionless normal contact between elastic
half-spaces, split into a verified core and a numerical shell.

- `src/` — the Verus-verified library: the wrap-around index layout of the
  zero-padded free-space convolution (`fft`), the shape, centred coordinates
  and row-major cell indexing of the interface grid (`grid`), the active-set
  count of the contact iteration (`solver`), gap superposition (`geometry`)
  and the accepted boundary names (`boundary`). Each carries its contract and
  the laws it rests on as proof functions.
- `app/` — ordinary Rust around it: the floating-point numerics (influence
  kernel, DC-FFT, BCCG and dense reference solvers, closed-form Hertz and
  Sneddon references, the reduced Gothic-arch law) and the `PyO3` extension
  module.
- `tests/` — executable tests of the verified library.
