//! The configuration core of the Acuity parachain runtime: its constants,
//! its fee model, its version record and its genesis presets.

pub mod config;
pub mod fees;
pub mod runtime_apis;
pub mod version;
pub mod keyring;
pub mod address;
pub mod json;
pub mod patch_json;
pub mod genesis;
pub mod runtime;
