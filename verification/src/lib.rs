pub mod text;
pub mod script;
pub mod models;
pub mod output;
pub mod commands;
pub mod url;
pub mod tui;
pub mod control;
pub mod server;
