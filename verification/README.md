# vyoma

The decision logic of the Vyoma microVM toolchain, written and verified in Verus.

- `src/shell.rs`, `src/init_script.rs`, `src/agent.rs`: quoting of shell words, the init script of a
  VM, and the choice of what goes into its initial RAM file system.
- `src/cgroups.rs`: limits and statistics of VMs through control groups.
- `src/cow.rs`: loop devices and copy-on-write files.
- `src/privdrop.rs`: the way from root to the user of the service.
- `src/build/`: builds of images from instruction files, from the first `FROM` to the signed
  manifest.
- `src/text.rs`, `src/number.rs`, `src/path.rs`, `src/image.rs`, `src/flow.rs`: what the others rest
  on.

Work outside (files, processes, system calls, network) is asked for by workflows: state machines
whose `step` takes the outcome of the last action and answers with the next one. `app/` carries the
actions out. `tests/` runs the workflows on given outcomes.
