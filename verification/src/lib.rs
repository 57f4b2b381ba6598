//! Boundary between a host process and a sandboxed WebAssembly engine that
//! runs oracle scripts: the error taxonomy handed back to the host, the
//! capacity-bounded buffers that carry bytes both ways, the owned handle of
//! the compiled-module cache, and the compile and run entry points.

pub mod error;
pub mod span;
pub mod cache;
pub mod calls;

pub use crate::cache::{oracle_cache_t, oracle_init_cache, oracle_release_cache, to_cache};
pub use crate::calls::{contain_code, contain_handle, do_compile, do_run, RunOutput};
pub use crate::error::Error;
pub use crate::span::Span;
