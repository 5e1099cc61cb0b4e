//! Developer workflow helpers: smart file reading, cron schedules, context
//! tracking, `ls` decoration, setup checks and cloud tooling logic.

pub mod aws;
pub mod config;
pub mod context;
pub mod cron;
pub mod eks;
pub mod gh;
pub mod jira;
pub mod kube;
pub mod log;
pub mod ls;
pub mod matcher;
pub mod newrelic;
pub mod pagerduty;
pub mod read;
pub mod setup;
pub mod text;
