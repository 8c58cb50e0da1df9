pub mod blob;
pub mod encoding;
pub mod error;
pub mod handlers;
pub mod jwt_validation;
pub mod middleware;
pub mod providers;
pub mod stores;
pub mod text;
