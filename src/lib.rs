//! A small chat bot: environment configuration, a workspace client bootstrap,
//! and a one-command dispatcher, with the decisions proved against their contracts.
use vstd::prelude::*;

pub mod bootstrap;
pub mod command;
pub mod config;
pub mod dispatch;
pub mod text;
