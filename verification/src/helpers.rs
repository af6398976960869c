pub mod backend;
pub mod command_line;
pub mod request;
pub mod text;
