# husker_core

The decision logic of the husker VM orchestrator, verified with Verus: what a request
may ask for, which host resources it takes and in which order, what is given back when a
step fails, when an idle VM is suspended and reaped, how services converge on their
wanted number of instances, and how secrets are sealed.

- `src/` is the verified library. It does no I/O: functions take what was read and
  answer what is to be done, and longer undertakings are step machines (`Creation`,
  `Forking`, `Reconciliation`, the steps of a suspend and of a resume). What holds of
  several of them together is stated in public proof functions.
- `app/` is the daemon around it: it performs the steps, talks to the VM monitor, the
  state store, the host's network and disks through the traits of `app/ports.rs`, and
  holds the locks.
- `tests/` exercises the library on concrete values.

The few calls into other crates (uuid, chrono, serde_json, ring) that the library makes
stand behind functions whose contracts are taken on trust; each says so above it.
