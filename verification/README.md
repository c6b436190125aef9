# safetyguard

Building blocks of a safety guard that supervises applications through a
lock-free single-producer/single-consumer ring in shared memory.

- `src/` is the verified library:
  - `memfd_rb`: the parts of the shared ring (header, cache-line-aligned
    indices, slots), the header a creator writes, and the rule by which a
    process attaching to a mapping accepts or refuses it. The structs use the
    compiler's default representation, so processes sharing a ring must run
    the same build; the alignment marker ties the crate to x86_64.
  - `safeappdb`: the configuration model: global settings with their
    defaults, application descriptions, and configuration objects whose
    key-value settings never repeat a key.
- `app/` holds what talks to the system: memfd creation and mapping, eventfd
  notification, the ring-buffer producer adaptor, and reading the YAML
  configuration file through serde and figment.
