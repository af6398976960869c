pub mod assistant;
pub mod chatgpt;
