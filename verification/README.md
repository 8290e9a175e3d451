# wasm_gpu

The host side of running WebAssembly modules on the GPU, as a Verus-verified library: the
values that cross between host and device and their byte layout, the layout of the buffers that
hold each invocation's arguments and results, how a run is split into dispatches, the
bookkeeping of control flow while a function body is translated, and reading and validating a
module from its bytes, section by section.

## Layout

- `src/` — the verified library, one module per concern:
  - `le_bytes` — little-endian numbers and words;
  - `typed` — value types, values, their byte representations, and host types that stand for
    values and sequences of values;
  - `io_layout` — the input, output, flags and constants buffers of a run;
  - `dispatch` — splitting a run into dispatches and joining their results;
  - `control_flow`, `function_body` — branch-depth bookkeeping and block and local types;
  - `linked_stack`, `function_lookup`, `wasm_front` — the structures that translation uses;
  - `globals`, `tables` — building the globals and tables of a module set;
  - `module` — what each section of a module adds to it, and the module that its sections make up;
  - `module_reader` — reading a module's bytes with `wasmparser`: each payload validated and read
    as a section;
  - `wast_args` — script arguments;
  - `atomic_counter`, `panic_on_any` — small utilities.
- `tests/` — tests on concrete values.
- `app/` — the glue that needs outside derives or floating point: conversions of script values,
  the error type with its display text, and the single-precision sizing of a run.

Generating the shaders and running them on a device are not part of this library: it covers
what the host computes around them.
