//! Driver-manager bridge for the ADBC database connectivity standard: the
//! handle types shared with drivers, the driver function table with its
//! "not implemented" defaults, the release protocol, the partition codec and
//! the capability traits consumed by clients.
#![allow(non_camel_case_types)]

pub mod error;
pub mod partitions;
pub mod driver_functions;
pub mod ffi;
pub mod interface;
