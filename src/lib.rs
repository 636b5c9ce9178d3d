//! Provisioning of a memory-backed volume: size parsing, filesystem
//! resolution, volume naming, and the provisioning state machine.
pub mod config;
pub mod filesystem;
pub mod name;
pub mod provision;
pub mod size;
pub mod text;

pub use filesystem::{get_diskutil_format, validate_filesystem};
pub use name::sanitize_volume_name;
pub use size::size_to_sectors;
