//! Terminal polkit authentication agent: the decisions, without the I/O.
pub mod agent;
pub mod cli;
pub mod controller;
pub mod cookie;
pub mod daemon;
pub mod dialog;
pub mod helper;
pub mod idle;
pub mod inline;
pub mod logging;
pub mod popup;
pub mod prompt;
pub mod protocol;
pub mod screen;
pub mod session;
pub mod table;
pub mod text;
pub mod tui;
pub mod ui;
pub mod user;
