//! Helpers shared by the components.

pub mod count;
pub mod keys;

pub use keys::{ascending, is_range_scan, keys_above, keys_of, remove_keys_above, scan_range};
