//! Host-side value model, layout arithmetic and control-flow bookkeeping for running
//! WebAssembly modules on the GPU.

pub mod le_bytes;
pub mod typed;
pub mod control_flow;
pub mod function_body;
pub mod io_layout;
pub mod dispatch;
pub mod linked_stack;
pub mod function_lookup;
pub mod wasm_front;
pub mod globals;
pub mod atomic_counter;
pub mod panic_on_any;
pub mod tables;
pub mod module;
pub mod wast_args;
pub mod module_reader;
