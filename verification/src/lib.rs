pub mod api;
pub mod helpers;
pub mod models;
