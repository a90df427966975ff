# kaikei-rs

Japanese tax calculations for sole proprietors (個人事業主) and small
corporations (中小法人), verified with Verus.

- `src/tax/tables.rs` — rates, brackets and deductions by fiscal year
  (令和6年, 令和7年). Rates are exact per-mille integers: `100` is 10%.
- `src/tax/rate.rs` — applying a per-mille rate (truncated) and extracting
  the tax from a tax-inclusive amount (rounded to the nearest yen).
- `src/tax/income.rs` — income, reconstruction, resident and business tax,
  and the combined sole-proprietor calculation.
- `src/tax/corporate.rs` — corporate, local corporate, corporate resident,
  enterprise and special enterprise tax.
- `src/tax/consumption.rs` — consumption tax, standard and reduced rates,
  simplified taxation.
- `src/tax/parse.rs` — the names used by the browser interface.
- `app/` — WebAssembly bindings, JSON output and floating-point effective
  rates around the verified library.

Every calculation states its exact result in its contract; the proof
functions state the laws the tables give: progressive income tax, more
revenue never lowering the tax, the 令和7年 reform never raising it, and
the round trip between tax-exclusive and tax-inclusive prices.
