pub mod content_type;
pub mod fetch;
pub mod response;
pub mod request;
pub mod handler;
pub mod pool;
