pub mod handlers;
pub mod middleware;
pub mod payloads;
pub mod status;
