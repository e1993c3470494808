//! The outside services that provisioning drives: the GPU cloud provider and the provisioner
//! worker. What they answer is theirs: these traits state nothing of it, and the decisions
//! taken on their answers stand in the provisioner and the service.
use vstd::prelude::*;
use crate::domain::GpuCloudProviderId;
use super::contracts::{
    CreateEndpointTemplateInput, CreateNetworkVolumeInput, CreateProvisioningPodInput,
    CreateServerlessEndpointInput, EndpointTemplateObservation, NetworkVolumeObservation,
    ProvisionerWorkerBearerToken, ProvisioningPodObservation, ServerlessEndpointObservation,
};
use super::errors::WorkspaceProvisioningError;
use super::gateway::{ProvisionerWorkerStartRequest, ProvisionerWorkerStatus};

verus! {

/// The GPU cloud provider's resources that a workspace needs.
pub trait ProviderProvisioningGateway {
    /// Creates a network volume.
    fn create_network_volume(&self, input: CreateNetworkVolumeInput) -> Result<NetworkVolumeObservation, WorkspaceProvisioningError>;

    /// Reads a network volume.
    fn get_network_volume(&self, provider_id: GpuCloudProviderId, volume_id: &str) -> Result<NetworkVolumeObservation, WorkspaceProvisioningError>;

    /// Deletes a network volume.
    fn delete_network_volume(&self, provider_id: GpuCloudProviderId, volume_id: &str) -> Result<(), WorkspaceProvisioningError>;

    /// Creates a provisioning pod.
    fn create_provisioning_pod(&self, input: CreateProvisioningPodInput) -> Result<ProvisioningPodObservation, WorkspaceProvisioningError>;

    /// Reads a provisioning pod.
    fn get_provisioning_pod(&self, provider_id: GpuCloudProviderId, pod_id: &str) -> Result<ProvisioningPodObservation, WorkspaceProvisioningError>;

    /// Deletes a provisioning pod.
    fn delete_provisioning_pod(&self, provider_id: GpuCloudProviderId, pod_id: &str) -> Result<(), WorkspaceProvisioningError>;

    /// Creates an endpoint template.
    fn create_endpoint_template(&self, input: CreateEndpointTemplateInput) -> Result<EndpointTemplateObservation, WorkspaceProvisioningError>;

    /// Reads an endpoint template.
    fn get_endpoint_template(&self, provider_id: GpuCloudProviderId, template_id: &str) -> Result<EndpointTemplateObservation, WorkspaceProvisioningError>;

    /// Deletes an endpoint template.
    fn delete_endpoint_template(&self, provider_id: GpuCloudProviderId, template_id: &str) -> Result<(), WorkspaceProvisioningError>;

    /// Creates a serverless endpoint.
    fn create_serverless_endpoint(&self, input: CreateServerlessEndpointInput) -> Result<ServerlessEndpointObservation, WorkspaceProvisioningError>;

    /// Reads a serverless endpoint.
    fn get_serverless_endpoint(&self, provider_id: GpuCloudProviderId, endpoint_id: &str) -> Result<ServerlessEndpointObservation, WorkspaceProvisioningError>;

    /// Deletes a serverless endpoint.
    fn delete_serverless_endpoint(&self, provider_id: GpuCloudProviderId, endpoint_id: &str) -> Result<(), WorkspaceProvisioningError>;
}

/// The provisioner worker, with its failures taken as provisioning errors.
pub trait ProvisionerWorkerGateway {
    /// Asks the worker to start preparing the environment.
    fn start(
        &self,
        provisioner_status_url: &str,
        token: &ProvisionerWorkerBearerToken,
        request: &ProvisionerWorkerStartRequest,
    ) -> Result<ProvisionerWorkerStatus, WorkspaceProvisioningError>;

    /// Asks the worker how far it has come.
    fn status(&self, provisioner_status_url: &str, token: &ProvisionerWorkerBearerToken) -> Result<
        ProvisionerWorkerStatus,
        WorkspaceProvisioningError,
    >;

    /// Asks the worker to stop.
    fn cancel(&self, provisioner_status_url: &str, token: &ProvisionerWorkerBearerToken) -> Result<
        ProvisionerWorkerStatus,
        WorkspaceProvisioningError,
    >;
}

} // verus!
