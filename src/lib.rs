pub mod errors;
pub mod hashing;
pub mod model;
pub mod services;
pub mod store;
