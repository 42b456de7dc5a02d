pub mod common;
pub mod request;
pub mod response;
pub mod service;
pub mod router;
pub mod context;
