pub mod system_api;
