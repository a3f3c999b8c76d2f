# flow_examples

Verified decision logic for a set of example dataflow nodes: a counting
source, a random source, the fizz and buzz operators, a generic sink, a frame
concatenation operator and an object-detection operator.

- `src/` is the verified library (Verus). Each module states, over spec
  functions, what a node computes from the values it receives:
  `ports` (required inputs), `fizzbuzz`, `counter`, `random`, `sink`,
  `frames`, `text` (decimal formatting) and `detection` (which boxes are
  drawn, in which color, and where the labels go).
- `app/` wires each node into the dataflow runtime: it reads the ports and
  the configuration, calls the library, and performs the I/O and the image
  processing.
- `tests/` runs the library on concrete values.
