//! A tenant-partitioned messaging bridge: tenant pack discovery, per-tenant
//! configuration, activity-shape translation between the wire format and a
//! workflow engine, and health accounting.
//!
//! The crate is organised so that every decision the bridge makes is a
//! function on plain values with a proved contract; connecting, reading and
//! publishing stay with the embedding program.

pub mod codec;
pub mod config;
pub mod health;
pub mod json;
pub mod loader;
pub mod runner_bridge;
pub mod shim;
pub mod strutil;
pub mod telemetry;
pub mod types;
pub mod worker;

pub use config::AppConfig;
pub use config::CliArgs;
pub use config::Mode;
pub use config::SubjectConfig;
pub use json::JsonValue;
pub use loader::TenantPack;
pub use loader::load_packs;
pub use types::Activity;
pub use types::ActivityType;
