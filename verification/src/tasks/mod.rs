//! The scheduler, its messages and its workers.
pub mod host_exec_context;
pub mod module_cache;
pub mod module_hash;
pub mod post_message_payload;
pub mod scheduler;
pub mod scheduler_message;
pub mod sessions;
pub mod thread_pool_worker;
pub mod wire;
