pub mod bedrock;
pub mod repositories_impl;
pub mod secrets;
pub mod slack;
