//! Decision logic of the husker VM orchestrator.

pub mod activity;
pub mod agent;
pub mod create;
pub mod destroy;
pub mod diagnostics;
pub mod egress;
pub mod env;
pub mod error;
pub mod fork;
pub mod idle;
pub mod ids;
pub mod images;
pub mod ipv4;
pub mod leases;
pub mod ledger;
pub mod lifecycle;
pub mod logs;
pub mod manifest;
pub mod mount;
pub mod names;
pub mod network;
pub mod oci;
pub mod path;
pub mod policy;
pub mod pools;
pub mod proxy;
pub mod records;
pub mod requests;
pub mod secrets;
pub mod services;
pub mod settings;
pub mod snapshots;
pub mod text;
pub mod time;
pub mod userdata;
pub mod volumes;
pub mod vz;
