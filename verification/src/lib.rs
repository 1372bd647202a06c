//! Task scheduling, host execution and pipes for WebAssembly programs that run
//! on a pool of JavaScript workers.
pub mod host_exec;
pub mod ids;
pub mod laws;
pub mod pipes;
pub mod response;
pub mod runtime;
pub mod tasks;
pub mod text;
pub mod words;
