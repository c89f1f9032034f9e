# k8s-insider

A command line tool that reaches a Kubernetes cluster's network over
WireGuard. This crate holds its logic as a library verified with Verus, and a
thin program around it.

- `src/` — the verified library:
  - `config/`, `name_map.rs`: the local configuration (networks and their
    tunnels, kept sorted by local name) and the naming of new entries;
  - `wireguard/`: keys, the peer configuration file and its metadata, the
    connection manager, and the system commands that bring tunnels up and down;
  - `commands/`: what each command decides (resources to apply, entries to
    record, listings, install and upgrade plans, the version table);
  - `output.rs`: cells, rows and aligned tables;
  - `net.rs`, `path.rs`, `text.rs`, `os.rs`, `context.rs`, `service.rs`,
    `formats.rs`, `version.rs`: addresses, paths, text, system commands,
    file locations, service addresses, JSON/YAML fields, versions;
  - `tool/`: the cluster-side helper's labels, detectors and decisions.
- `app/` — the program: argument parsing, files, running system commands.
- `tests/` — tests of the library.
