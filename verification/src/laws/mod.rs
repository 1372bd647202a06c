//! What the library promises, stated over calls of its functions.
//!
//! Each law takes the arguments and the results of calls, related by nothing but
//! what the called functions ensure, and says in plain values what a caller can
//! rely on.
pub mod answers;
pub mod forks;
pub mod host_exec;
pub mod messages;
pub mod numbers;
pub mod pipes;
pub mod runtime;
pub mod scheduler;
pub mod sessions;
pub mod work;
