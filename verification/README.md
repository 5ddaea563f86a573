# ternary_optimizer

Sign-based optimization for networks with ternary weights {-1, 0, +1}.

- `src/` is the verified library: the ternary level selected by comparison
  outcomes (`ternary::ternary_level`), the zero count of a ternarized vector
  (`ternary::count_zeros`), and the plateau logic of the discrete learning-rate
  schedule (`schedule::schedule_decision`, with the law
  `schedule::law_decrease_every_patience_steps`).
- `app/` holds the `f64` optimizers (`TernaryGD`, `TernaryMomentum`,
  `TernaryAdam`), weight ternarization and `TernaryLRSchedule`, which take
  their decisions from the library.
- `tests/` exercises the library on concrete values.
