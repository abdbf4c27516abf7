# lianli

Verified logic of the custom LCD template system for Lian Li devices.

- `src/` is the library, verified with Verus: the template data model and
  its validation (`template`), the built-in templates (`template_defaults`),
  which user templates are loaded, saved, listed and resolved
  (`template_store`), sensor discovery and resolution over a snapshot of
  `/sys/class/hwmon` and the text of `nvidia-smi` and command output
  (`sensors`), widget helpers and image fitting (`custom`), and the string
  primitives they rest on (`text`). Single-precision numbers are carried by
  their bit pattern (`float_bits`).
- `app/` does the file, process and floating-point drawing work around it,
  and holds the serde forms of the library's types.
- `tests/` runs the library on concrete values.
