# kiwisolver

The native core of the kiwisolver Python package: linear constraints solved by the
Cassowary algorithm (the `cassowary` crate), exposed to Python through PyO3.

- `src/` is the library, verified with Verus: relational operators and their parsing,
  the predefined strengths and their names, the failures and the exception types that
  report them, and the solver front end that keeps the record of the variables its
  constraints and edit variables mention.
- `app/` is the Python extension module (PyO3 classes `Variable`, `Term`, `Expression`,
  `Constraint`, `Solver`, `strength`). It also holds the expression algebra and every other
  computation on floating-point coefficients, constants, strengths and values.
- `tests/` exercises the library and the Cassowary back end.
