# namespace_watchdog

A watchdog for a Kubernetes namespace: a pod in the namespace deletes the namespace once no
keep-alive has reached it for a while, and an installing process creates the watchdog's
objects and keeps it alive.

- `src/` is the verified library: the objects that install the watchdog (`resources`,
  `install`), the command line handed to a deployed watchdog (`args`), the supervision of
  keep-alive sessions (`owner`), the watchdog's deadline (`watchdog`) and spans of time
  (`time`). `kinds` asks kube for the objects' kinds.
- `app/` runs them against a cluster: `deploy`, `own` and `watch` subcommands.
- `tests/` runs the library on concrete values.
