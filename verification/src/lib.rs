pub mod json;
pub mod text;
pub mod session;
pub mod cli;
pub mod session_list;
pub mod profiles;
pub mod session_file;
pub mod protocol;
pub mod flow;
pub mod browser;
pub mod get;
pub mod tabs;
pub mod commands;
