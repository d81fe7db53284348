//! A local development proxy: a routing table from hosts to upstream targets,
//! the decision taken for each inbound request, the proxy auto-configuration
//! script that advertises the routed hosts, and the life cycle of a tunnel.

pub mod authority;
pub mod config;
pub mod dispatch;
pub mod json;
pub mod pac;
pub mod provider;
pub mod text;
pub mod tunnel;
