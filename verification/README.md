# scylladb-drivers-benchmarker

Benchmarks ScyllaDB drivers: it builds a driver's benchmark project, runs each
scenario at every point with a chosen measurement (time, `perf stat`, flame
graphs, or any command), stores the results in an SQLite database, and plots
them.

## Layout

- `src/` is the library, verified with Verus: commands and their parsing,
  configuration files (scenarios, backends, apis, drivers, durations), the
  benchmarking session (the commands of every phase, which points to measure,
  and the state machine that drives one point through prepare, run and
  teardown), the database queries and filters, the command-line arguments once
  parsed, and the decisions behind the plots (formats, grids, series names,
  missing results, perf-stat units, flame-graph pages).
- `app/` is the program around it: argument parsing, running processes,
  reading and writing files, the SQLite database, and drawing the charts.
- `tests/` holds the tests of the library.
