pub mod login;
pub mod newsletters;
