//! Assembly of per-platform native extension binaries into installable
//! packages: GitHub release tarballs, Python wheels, RubyGems gems, npm
//! tarballs, Swift-Package-Manager and sqlpkg descriptors, and the checksum
//! list and manifest that tie them together.
pub mod amalgamation;
pub mod archive;
pub mod digest;
pub mod gem;
pub mod gh_releases;
pub mod installer;
pub mod json;
pub mod manifest;
pub mod npm;
pub mod pip;
pub mod plan;
pub mod platform;
pub mod project;
pub mod registry;
pub mod spec;
pub mod spm;
pub mod sqlpkg;
pub mod text;
pub mod version;
