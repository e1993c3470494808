pub mod errors;
pub mod gateway;
pub mod gateways;
pub mod failure;
pub mod contracts;
pub mod snapshots;
pub mod readiness;
pub mod progress;
pub mod provisioner;
pub mod runpod;
pub mod coordinator;
pub mod service;
pub mod steps;
