# kryx

`kryx` is the unified command line of KryonixOS: system switch and update
through `nh`, the diskless node image, the `doctor` and `status` dashboards,
pass-through wrappers for `nix`/`nh` with a confirmation gate for destructive
operations, and the clients of the `kryxd` daemon.

The decisions of every command are a library verified with Verus:

- `src/` — the verified library. Each module states its contracts over
  character sequences (`text` holds the string model: lines, words, trimming,
  decimal rendering, parsing).
  - `passthrough`, `help`, `nix_extra` — routes of the pass-through commands,
    the `kryx` help sections, the confirmation gate.
  - `diagnostics` — every check of `kryx doctor`, from what its probes gave,
    and the report.
  - `status` — what the dashboard shows of each reading.
  - `update`, `modules`, `node` — pulling the configuration repositories
    (a step function from the last `git` outcome to the next run), the
    switch, the PXE node commands.
  - `cleanup` — garbage collection results, the sweep rules, the summary.
  - `cli` — the commands, the role-based authorization, the `kryxd` clients'
    tables; `client` — the daemon's URL and errors; `ui` — banner and headers.
- `tests/` — scenarios on concrete values, run against the compiled library.
- `app/` — the program: argument parsing (`clap`), files, processes, HTTP
  (`ureq`), JSON (`serde`), spinners (`indicatif`), tables (`cli-table`), and
  the few floating-point figures (memory, load).
