//! Diagnostic front-end library for an administered WordPress installation.
//!
//! The library holds the logic of the tool: the privilege-aware construction
//! of the external command line, the locator's root-discovery decision, the
//! diagnostic probes' threshold analyses, the orchestration of probe
//! outcomes, and the report rendering. Everything that touches the operating
//! system (spawning the external tool, filesystem and network access,
//! interactive prompts) lives outside the library and hands it plain values.

pub mod diagnosis;
pub mod report;
pub mod text;
pub mod wp;
