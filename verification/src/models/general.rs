pub mod route;
pub mod support_case;
