//! The protocols that the firmware offers on its handles.

pub mod file;
pub mod simple_file_system;
pub mod simple_input;
pub mod simple_text_output;
