# risk_normalization

Monte-Carlo risk normalisation of a record of trades: find the safe fraction of
equity to risk (the largest fraction whose simulated drawdowns exceed a tolerance
no more often than a target tail percentile) and the CAR25 that it leads to.

- `src/` is the verified library: the random choice of trades for one simulated
  path (`sampling`), the bisection for the safe fraction (`search`), the CAR25
  position among sorted returns (`percentile`), the bookkeeping of the
  repetitions (`normalization`) and the error with its message (`error`). The value types are generic, so the library
  holds no floating-point code.
- `app/` is the program: CSV input, the floating-point simulation (equity curves,
  drawdown, CAGR, mean and deviation) and the output.
- `tests/` exercises the library.
