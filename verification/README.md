# curds

A verified library, written in Verus, for the curds tools:

- `cron`: cron expressions (five fields of values such as `*/3`, `1-5`,
  `L-2`, `MON#2`, `SUNL`, `15W`), parsed into fields and matched against
  moments of the calendar; the configuration of jobs and the scheduler that
  decides which jobs to start at each look at the clock; the operations of
  the command line.
- `web`: the routes of a site (which file answers which request target) and
  how a request is answered.
- `whey`: the mock generator. It holds a trait, its methods and their types
  as plain values and writes the testing struct, the mock core methods, the
  expectation structs and the statements of the whey attributes and macros
  as text.

Every function in `src/` states its behaviour in `requires`/`ensures` and is
proved by Verus; `cron::laws`, `cron::scheduler` and `whey::laws` prove what
holds across functions.

`app/` holds the cron program (command line, files, the clock, processes)
and reads Rust source with syn into the mock generator's model.
