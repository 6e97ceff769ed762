//! A configuration model for tunnel interfaces: validated interface names,
//! read-only snapshots of an interface and its peers, and change sets that
//! are applied on top of what an interface already has.

pub mod addr;
pub mod config;
pub mod device;
pub mod elapsed;
pub mod key;
pub mod name;
