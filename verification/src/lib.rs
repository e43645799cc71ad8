pub mod codec;
pub mod core_store;
pub mod error;
pub mod kv;
pub mod log_model;
pub mod mailbox;
pub mod membership;
pub mod node;
pub mod retry;
pub mod storage;
pub mod storage_laws;
pub mod types;
