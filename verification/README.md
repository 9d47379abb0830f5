# vuio

A cross-platform DLNA/UPnP media server whose logic is a Verus-verified
library.

- `src/` is the library, verified by Verus: platform capabilities and
  defaults, path rules, configuration defaults, validation and reports, the
  media library and its scan plans, file-system event handling, network
  interface parsing and selection, firewall and security findings, UPnP
  descriptions, Browse listings and byte ranges, backups, status reports and
  diagnostics. Each public function states what it returns in its contract;
  the `law_*` proof functions state what holds across calls.
- `tests/` runs the library on concrete values.
- `app/` is the program around it: command-line arguments, the SQLite
  store, the file watcher, SSDP and HTTP services, and the system tools the
  platform checks run. It hands the library plain values and acts on what
  comes back.

Calls into `dirs`, `hostname` and `uuid`, and into the standard library
where it has no specification, stand behind small trusted wrappers whose
doc comments say what is assumed of them.
