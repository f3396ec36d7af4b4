# sensirion_gas_index_algorithm

Sensirion's VOC/NOx gas index algorithm for SGP4x sensors.

- `src/` (verified with Verus): the algorithm type and the decision logic of
  the algorithm (`GasIndexControl`): the raw value clamped above the sensor's
  minimum, whether a sample falls in the initial blackout (which happens once
  until a reset), whether its gas index comes from the MOX model or from the index
  offset, when the adaptive low-pass filter is seeded, and when the
  mean/variance estimator is initialized or updated. `src/laws.rs` proves the
  properties that hold across samples.
- `app/`: the single-precision floating-point computation (MOX model,
  sigmoids, mean/variance estimator, adaptive low-pass filter), which asks the
  verified control what to do with each sample. It uses `libm` for `expf`,
  `sqrtf` and `powf`.
