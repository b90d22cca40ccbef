# thermalai_daemon

ThermalAI keeps an Android phone cool and responsive: it settles a thermal
policy from the device's temperatures and trends, writes CPU and GPU
governors, power levels and cpusets for it, limits the charge current, and
gives detected games extra scheduling, network and frame-rate help.

The decisions are a Verus library whose functions carry contracts that Verus
proves:

- `src/` — the verified library. Each module states its behaviour over spec
  functions; the laws (properties that span several calls) are public proof
  functions next to the code they speak of (`law_*`).
- `tests/` — tests on concrete values, run against the compiled library.
- `app/` — the daemon program: it reads sysfs and procfs, calls the library,
  and performs the writes, process scans and service calls it asks for.

Three calls into outside crates stand behind trusted wrappers: reading the
top-level entries of the small JSON state files, the charge override and the
crash marker (`serde_json`), gzip decompression of the kernel configuration
(`flate2`), and appending a character to a `String`.
