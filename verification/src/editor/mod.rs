pub mod logger;
pub mod mode;
