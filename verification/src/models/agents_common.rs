pub mod common_agent;
pub mod common_traits;
pub mod lines;
pub mod protocol;
