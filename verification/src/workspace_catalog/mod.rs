pub mod errors;
pub mod model;
pub mod record;
pub mod repository;
pub mod service;
pub mod details;
pub mod persistence;
