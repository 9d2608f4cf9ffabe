pub mod cursor;
pub mod document;
pub mod mode;
pub mod state;
pub mod status_bar;
pub mod editor;
