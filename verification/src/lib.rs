//! Monitoring probes: the check engine of an HTTP probe and the configuration
//! model of a SQL Server probe.

pub mod checking;
pub mod config;
pub mod connection;
pub mod http;
pub mod output;
pub mod runner;
pub mod text;
