pub mod request_event;
pub mod user;
