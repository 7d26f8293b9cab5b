//! Core of a pre-boot unlocker for self-encrypting drives that speak TCG Opal.
//!
//! The crate holds the parts that decide and compute: the token codec, the
//! packet framer, the session engine, Level-0 discovery, the key derivation
//! and the configuration grammar. Everything that touches firmware services
//! lives with the caller, which hands plain values in and takes plain values
//! back.
pub mod config;
pub mod error;
pub mod greeter;
pub mod kdf;
pub mod nvme_device;
pub mod nvme_passthru;
pub mod opal;
pub mod secure_device;
pub mod text;
pub mod util;
