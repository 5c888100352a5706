# Soda machine

A virtual soda machine built as Model–View–Controller, with its rules
proved by Verus.

- `src/model.rs` — stock, prices, the coin slot and the purchase log;
  every operation is specified as a transition of `ModelState`.
- `src/laws.rs` — properties that span operations (refunds, purchases,
  restocks, the append-only log and menu order).
- `src/view.rs` — how typed answers are read and how table rows read.
- `src/prompts.rs` — each terminal conversation as a step: an answer (or
  the end of input) in, the next question or the result and the notice out.
- `src/controller.rs` — what each menu choice does and what it says.
- `src/text.rs` — trimming, ASCII case, number parsing, money text.
- `app/` — the terminal program: reading stdin, printing, and turning
  typed dollars into cents.

Money is counted in whole cents (`150` is $1.50), so amounts add and
subtract exactly.
