//! A safe, low-level view of an operating system's directory enumeration:
//! a restartable stream of decoded directory records, together with a few
//! small value types (socket addresses, OS error codes, decimal path
//! components) that commonly accompany it.

pub mod addr;
pub mod dec_int;
pub mod dir;
pub mod dirent;
pub mod error;
pub mod file_type;
pub mod ip;
