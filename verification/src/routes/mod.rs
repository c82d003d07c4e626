pub mod html_pages_and_triggers;
pub mod session;
pub mod system;
pub mod token;
