# mdcheck-ng

Periodic, resumable scrubs of Linux md RAID arrays, with the scheduling and
bookkeeping verified with Verus.

- `src/` is the verified library:
  - `text` — whitespace, trimming, field counting and decimal numbers over `Seq<char>`;
  - `cron` — configured schedules (missing leading fields filled with `*`), croner's
    parser and matching against the local wall clock;
  - `device` — the settings of one array, merging per-device settings over the global
    ones, and when a scrub may start or go on;
  - `config` — the global settings with the per-device overrides;
  - `md_dev` — what an array's sysfs attributes and saved-position file hold, and the
    writes that start, resume or stop a check;
  - `ionice` — the `ionice` setting written as `ionice` command-line options (`-c2 -n7`);
  - `renice` — the I/O priority and nice level to give the resync thread;
  - `scrub` — the decisions of one run over the arrays, including the `max_run_duration` limit.
- `app/` is the program: configuration loading (figment, serde), the files under
  `/sys/block`, the process table, the system calls that change priorities, and the
  main loop.
- `tests/` exercises the library on concrete values.
