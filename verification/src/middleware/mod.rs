pub mod validate_signature;
