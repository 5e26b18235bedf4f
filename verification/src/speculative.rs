pub mod types;
pub mod text;
pub mod validation;
pub mod permit;
pub mod service;
pub mod scheduler;
pub mod stream;
