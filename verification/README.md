# ahcontrol

Control logic of the AmazingHand soft-grasp node, verified with Verus.

- `src/` — the verified library:
  - `soft_grasp.rs`: the per-finger grasp state machine (fault, release,
    contact confirmation, holding, closing), its target and hold rules, the
    load-baseline counters, and the laws proved of them;
  - `safety.rs`: which fault a set of feedback samples raises, and in which
    order of precedence;
  - `feedback.rs`: decoding of the SCS0009 feedback register block;
  - `config.rs`: configuration defaults and choices;
  - `node.rs`: the decisions of the control loop (joint index selection,
    round-robin feedback polling, status numbers).
- `app/` — the Dora node: arguments, serial bus, event loop, CSV log and all
  floating-point arithmetic (load filters, baselines, target clamping), which
  the library does not hold.
- `tests/` — tests of the library.
