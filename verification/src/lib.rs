//! Verified resolution logic for Eclipse Adoptium OpenJDK distributions.
//!
//! The crate translates semantic versions into the vendor's release-name
//! strings, maps host platform triples into the vendor API's vocabulary,
//! builds the API query URLs, and drives the paginated version-listing
//! protocol. All network traffic is left to the embedding plugin host;
//! the functions here are pure and fully specified.

pub mod adoptium_api;
pub mod pagination;
pub mod platform;
pub mod proto;
pub mod version;

pub use platform::{HostArch, HostEnvironment, HostLibc, HostOs};
pub use version::SemVersion;
