//! Binding layer between a database engine's stored-procedure ABI and
//! procedure code: name resolution, sentinel-to-error mapping, the scan
//! and scripting protocols, and the shaping of host requests and results.

pub mod dict;
pub mod error;
pub mod frame;
pub mod iter;
pub mod ops;
pub mod resolve;
pub mod shim;
pub mod stack;
pub mod tuple;
