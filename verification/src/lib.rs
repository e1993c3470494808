pub mod domain;
pub mod setup_error;
pub mod text;
pub mod values;
pub mod workspace_provisioning;
pub mod workspace_provisioner;
pub mod workspace_catalog;
