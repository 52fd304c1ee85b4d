# vestigium

The verified core of a deterministic record-and-replay engine for x86_64
guests run under a hardware hypervisor.

- `src/` is the library, verified with Verus: exit classification
  (`exits`), recording decisions and the trace logger (`record`), replay
  decisions and snapshot restoration plans (`replay`), snapshots and their
  deterministic hash (`snapshot`, `memory`), identity page tables (`paging`),
  PE image layout (`loader`), virtual CPU configuration (`vcpu`, `registers`),
  guest memory placement (`layout`), and properties relating them (`laws`).
- `app/` is the command-line program that drives the Windows Hypervisor
  Platform, reads and writes trace archives, and carries out what the library
  decides.
- `tests/` exercises the library on concrete values.
