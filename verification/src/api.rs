pub mod assistant_request;
pub mod gpt_request;
