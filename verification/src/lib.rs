//! Verified core of the omarec screen-recording controller: domain types,
//! capability policy, session state machine, probe parsers and command planning.

pub mod capabilities;
pub mod cli;
pub mod clock;
pub mod config;
pub mod console;
pub mod control;
pub mod coordinator;
pub mod daemon;
pub mod decimal;
pub mod doctor;
pub mod domain;
pub mod first_frame;
pub mod gsr_command;
pub mod gsr_parse;
pub mod menu;
pub mod ids;
pub mod json;
pub mod naming;
pub mod output;
pub mod pathname;
pub mod paths;
pub mod policy;
pub mod postprocess;
pub mod probe;
pub mod protocol;
pub mod redact;
pub mod server;
pub mod state;
pub mod store;
pub mod supervisor;
pub mod textmap;
pub mod text;
