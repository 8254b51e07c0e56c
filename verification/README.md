# gateway

The domain model of Ferry, a personal AI gateway: upstream credentials and
their health, credential groups, model aliases and weighted target selection,
usage records, server settings, and the grading of failures for the inbound
adapters.

- `src/` is the verified library. `domain::values`, `domain::aggregates`,
  `domain::events`, `domain::errors` and `domain::canonical` hold the model;
  `error` and `ports::inbound` grade failures; `ports::outbound` holds the
  values exchanged with adapters and the synchronous ports; `features` holds
  the inputs and outputs of the use cases; `text` holds the text rules
  (blankness, exact comparison, ASCII case folding, decimal rendering,
  joining).
- `tests/` exercises the library on concrete values.
- `app/` is the unverified edge: the server entry point, the asynchronous
  repository and upstream ports, serializable copies of the value objects,
  conversions from wall-clock time, and the floating-point draw of weighted
  selection.
