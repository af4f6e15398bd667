# gamlss_family

Distribution families for GAMLSS (generalized additive models for location,
scale and shape) models, with the parts that do not involve floating-point
arithmetic verified by Verus.

## Layout

- `src/` — the verified library:
  - `multivariate/cholesky.rs`: packed lower-triangular index arithmetic and
    the laws of the row-major packed layout (in range, injective, surjective,
    gap-free).
  - `multivariate/matrix.rs`: `PackedLowerTriangular<T>`, runtime-dimensional
    packed storage whose length always matches its dimension.
  - `multivariate/normal/dynamic.rs`: the runtime-dimensional multivariate
    normal's dimension checks and its flat predictor layout (means followed by
    packed Cholesky entries), including the decoding of a flat position.
  - `multivariate/count.rs`, `multinomial.rs`, `dirichlet_multinomial.rs`:
    trial policies and the constructors of the count families.
  - `multivariate/independent.rs` and the other family files: family values
    and their dimension-checked constructors.
  - `numeric.rs`: the probe schedule of the finite-difference gradient fallback
    (central differences with shrinking steps, one-sided fallback, lazy base
    evaluation).
  - `link.rs`: the link types of `gamlss-core` used as default type parameters.
- `app/` — ordinary Rust on top of the library, covering part of the families'
  floating-point side: the shared matrix, correlation, elliptical and count
  kernels, the likelihood, CDF and sampling code of the independent product and
  of the runtime-dimensional multivariate normal with their `gamlss-core` trait
  implementations, and the driver that runs the finite-difference schedule.
  The likelihoods of the other families are not part of this crate.
- `tests/` — tests of the library.
