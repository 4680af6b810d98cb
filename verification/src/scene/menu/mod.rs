pub mod sys_menu_input;

pub use sys_menu_input::MenuInputSystem;
