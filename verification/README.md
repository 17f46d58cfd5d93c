# spectral_emotions

Emotions mapped to spectral and voxel-world properties.

- `src/` is the verified library (Verus): the eight emotions with their
  order and whole-hertz frequencies (`emotion`), the emotion-to-material and
  emotion-to-weather rules (`voxel`), and the canonical key of an undirected
  resonance edge (`graph`), with the laws that relate them.
- `app/` holds the floating-point side: intensities, emotion spectra, the
  emotional graph and the voxel scale, which call into the library.
- `tests/` runs the library on concrete values.
