//! Temporal identity resolution: binds the hostname or IP address under which
//! a host was observed to the stable asset identifier it carried at that time.

pub mod host;
pub mod mapping;
pub mod store;
pub mod memory;
pub mod db;
pub mod identifier;
pub mod laws;
