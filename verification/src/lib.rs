pub mod activity;
pub mod bootstrap_observer;
pub mod cli;
pub mod config;
pub mod config_update;
pub mod control;
pub mod control_session;
pub mod desktop;
pub mod domain;
pub mod log_parser;
pub mod log_tail;
pub mod logs;
pub mod process;
pub mod runtime_config;
pub mod runtime_events;
pub mod runtime_state;
pub mod state;
pub mod state_store;
pub mod supervisor;
pub mod text;
pub mod views;
