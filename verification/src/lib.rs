//! k8s-insider: local configuration, WireGuard peer configuration and the
//! decision logic of the k8s-insider command line tool.
use vstd::prelude::*;

pub mod cli;
pub mod commands;
pub mod config;
pub mod context;
pub mod crd;
pub mod formats;
pub mod name_map;
pub mod net;
pub mod os;
pub mod output;
pub mod path;
pub mod service;
pub mod text;
pub mod tool;
pub mod version;
pub mod wireguard;

verus! {
}
