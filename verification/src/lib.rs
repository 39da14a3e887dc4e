//! A verified core of an SQLite binding: authorizer and hook decoding,
//! SQL identifier quoting, the prepared-statement cache, the in-memory
//! database files used for (de)serialization, the VFS helper types and
//! the SQLCipher crypto provider.

pub mod codes;
pub mod util;
pub mod hooks;
pub mod vec_db;
pub mod cache;
pub mod pragma;
pub mod vfs;
pub mod crypto;
pub mod mem_file;
pub mod limits;
pub mod config;
pub mod session;
pub mod types;
pub mod connection;
pub mod macros;
pub mod memfs;
pub mod backup;
pub mod trace;
