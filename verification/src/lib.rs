//! Verified core of the XLM name service: registry, registrar, resolver,
//! subdomain, auction and bridge state machines, plus the decision logic of
//! the command-line client.
pub mod strmap;
pub mod common;
pub mod registry;
pub mod registrar;
pub mod subdomain;
pub mod resolver;
pub mod auction;
pub mod bridge;
pub mod cli;
pub mod renewal;
pub mod history;
pub mod export;
pub mod bidding;
pub mod register;
pub mod command_text;
