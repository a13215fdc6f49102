//! Core of a push/release-to-deploy daemon: webhook authentication,
//! policy gating, git mirror synchronization, and ordered execution of
//! per-repository deployment actions.

pub mod errors;
pub mod gateway;
pub mod github;
pub mod hexcode;
pub mod manifest;
pub mod mirror;
pub mod policy;
pub mod processor;
pub mod repo;
pub mod signature;
pub mod strutil;
