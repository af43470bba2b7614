# gungnir_app

The decision logic of the Gungnir desktop console, written in Verus and proved.

The console binds sensor feeds, links to a node, runs an approval queue, recovers its
records from the session journal and says what it is doing in alerts and panel lines.
This crate holds the parts of that which decide something: which feeds a configuration
binds, how a recovered journal is folded back into requirements, launch warnings and
retention state, how the desktop falls back to running alone when its node goes silent
and how the two queues are reconciled when it switches back, what a panel line or an
alert says for each situation, and so on. Every public function states in `ensures`
what it returns over a mathematical model of its inputs, and the properties that span
several functions stand as public proof functions beside them.

## Layout

- `src/lib.rs` names one module per area of the console (`adsb`, `failover`,
  `requirements`, `retention`, `session`, ...). Each module holds its types, the spec
  functions its contracts are written over, the verified functions, and its laws.
- `src/text.rs` holds the string helpers the sentences are built with, and the few
  calls into `std` that vstd does not specify, each behind a wrapper whose contract
  is believed.
- `src/rehearsal.rs` calls `sha2` for the seed hash of a rehearsal scenario; that call
  is the only one into an outside crate.
- `tests/` holds one file of tests per module, run against the compiled library.

Rendering, the event loop, file and network I/O and everything that reads floating
point positions or times stay outside this crate.
