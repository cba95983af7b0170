//! The decisions of a Keystore security level.
//!
//! A security level makes, imports and uses the keys of one KeyMint device on behalf of
//! its clients. Each request is a process (see `process`): it waits for one outside call at
//! a time, and decides upon the reply what comes next. Whoever runs it performs the calls.
//!
//! - `create_operation` begins operations, and `operation_laws` says what holds of every
//!   such request;
//! - `generate_key`, `import_key` and `import_wrapped_key` bring about new keys, which
//!   `store` keeps;
//! - `upgrade` is how a key blob is used that the device may want upgraded first.

pub mod create_operation;
pub mod generate_key;
pub mod import_key;
pub mod import_wrapped_key;
pub mod key_entry;
pub mod operation;
pub mod operation_laws;
pub mod process;
pub mod request;
pub mod security_level;
pub mod store;
pub mod target;
pub mod types;
pub mod upgrade;
