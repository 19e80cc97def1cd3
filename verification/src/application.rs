pub mod alerts;
pub mod services;
