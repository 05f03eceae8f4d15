# mlxcel_models

Model definitions for the text and embedding families of a local inference server, verified with
Verus.

A model is decided before it is computed. From a `config.json` and the names and shapes in a
checkpoint the library says whether the two can be served, with the message where they cannot; which
tensors are taken in which order; and, for every forward pass, how projections are cut into heads,
what is rotated from which position, which cached keys are read under which mask, how experts are
picked, and how a recurrence is cut into chunks. A tensor engine computes what these plans say.

- `src/` is the verified library, one module per family and a few that they share (`limits`,
  `weights`, `steps`, `plan`, `text`, `json`, `single`). Each family module ends its sections with
  the laws that hold across its functions.
- `app/` runs the library on an engine: it parses configs, runs load steps and holds the
  floating-point formulas. The engine is a trait.
- `tests/` runs the library on concrete configs and checkpoints.

Two questions can only be answered by the engine, and are put to it as data: whether it accepts the
declared quantization parameters (`validate` takes its objection), and whether a quantized tensor is
packed for its input width (`validate_weights` asks, one tensor at a time, until none is open).

Single-precision config values are held as their bits with the text that messages show.
