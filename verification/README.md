# blaze_ftc_quickstart

The decision logic of the BlazeFTC quickstart op modes, verified with Verus.

- `src/` — the verified library: op-mode selection, the mecanum mixing table, the brake
  op mode's button toggle and brake hold, the autonomous routine's targets and completion
  test, and the neutrino proxy's packet decisions, target table and feedback-loop plan.
- `tests/` — tests of the library on concrete values.
- `app/` — the JNI entry points and the robot handlers. They talk to the hubs through the
  `blaze_ftc` framework, run the floating-point PID and drive arithmetic, and call into the
  library for each decision.
