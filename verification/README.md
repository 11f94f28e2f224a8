# qwen_metal

The host side of a set of Metal compute kernels for running language models: which
tensors a kernel takes, how it is launched, and which parts of a mapped GGUF file can
be used in place. The device itself stays outside. The library checks requests and
records what is to be run, and an application replays the record on a real device.

Everything under `src/` is verified with Verus. A function that records a launch
states, for every input, either the exact commands it appends or the exact error it
returns.

- `dtype`, `error`, `shape`, `numeric`, `float_bits`, `mxfp4`: formats, errors, sizes
  and numbers.
- `context`, `tensor`, `encoder`: the device as the kernels see it, typed views of its
  buffers, and the record of launches.
- `moe_slots`, `moe_grouped`, `moe_checked`, `moe_route`, `moe_generic`, `range_laws`:
  mixture-of-experts kernels.
- `norm`, `rope`, `research`: norms, rotary positions, and bandwidth probes.
- `gguf_backing`, `pages`, `source_ranges`, `retained`, `retained_laws`: mapped files
  and the plan of what is viewed in place and what is copied.

Proof functions named `law_...` state what holds across functions.

`app/` holds the parts that need floating point, the environment, a clock or a device.
