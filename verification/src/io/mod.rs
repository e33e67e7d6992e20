pub mod decimal;
pub mod input;
