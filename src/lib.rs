//! Core of a terminal dashboard for searching torrent indexes and handing
//! results to a remote download service: layout, scrolling text, the panel
//! state machine, result processing and the job mailboxes.

pub mod api;
pub mod config;
pub mod layout;
pub mod mailbox;
pub mod marquee;
pub mod models;
pub mod panel;
pub mod search;
pub mod text;
pub mod ui;
pub mod upload;
pub mod view;
