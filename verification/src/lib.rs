pub mod modal;
pub mod status;
pub mod view;
