//! Core of a headless music-playback daemon: the shared playback state
//! machine and the laws it keeps, the decisions of the end-of-track watchers
//! and of the command handler, the control-socket records and their JSON
//! form, the player channel's reply correlation, and the parts of the
//! library-service client that compute (addresses, tokens, reading answers,
//! best-match name lookup). Sockets, processes, HTTP and prompts live with
//! the program around it.

pub mod text;
pub mod track;
pub mod protocol;
pub mod state;
pub mod events;
pub mod laws;
pub mod matching;
pub mod config;
pub mod cli;
pub mod queue;
pub mod command;
pub mod player;
pub mod json;
pub mod service;
pub mod endpoint;
pub mod wire;
