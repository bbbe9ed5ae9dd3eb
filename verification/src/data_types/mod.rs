pub mod app_config;
pub mod request;
pub mod response;
