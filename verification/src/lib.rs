pub mod adapter;
pub mod auth;
pub mod command;
pub mod config;
pub mod error;
pub mod model;
pub mod orchestrator;
pub mod proxy_config;
pub mod text;
pub mod vpn_config;

use vstd::prelude::*;

verus! {

} // verus!
