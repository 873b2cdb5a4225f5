pub mod mode;
pub mod panel;
pub mod text_model;
pub mod textarea;
