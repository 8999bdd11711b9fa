//! How a container is reached: the credentials and the container's name,
//! settled once when the sink starts.

use std::sync::Arc;
use vstd::prelude::*;
use crate::error::ConfigurationError;

verus! {

/// The way the sink proves to the store who it is.
pub enum Credentials {
    /// A shared secret, as the account's connection string holds it.
    ConnectionString(String),
    /// The identity that the surroundings grant, for the named storage account.
    /// Whoever opens the connection keeps its token fresh.
    StorageAccount(String),
}

/// One container under one set of credentials. Made once and shared by every
/// upload; nothing changes it afterwards.
pub struct ContainerHandle {
    pub credentials: Credentials,
    pub container_name: String,
}

/// `Arc::clone`: one more pointer to the same handle.
#[verifier::external_body]
pub(crate) fn share(handle: &Arc<ContainerHandle>) -> (shared: Arc<ContainerHandle>)
    ensures
        shared == *handle,
{
    Arc::clone(handle)
}

/// The handle that the configuration asks for, or why it asks for none:
/// exactly one of the two credentials has to be there.
pub open spec fn configured_client(
    connection_string: Option<String>,
    storage_account: Option<String>,
    container_name: String,
) -> Result<ContainerHandle, ConfigurationError> {
    match (connection_string, storage_account) {
        (Some(secret), None) => Ok(
            ContainerHandle { credentials: Credentials::ConnectionString(secret), container_name },
        ),
        (None, Some(account)) => Ok(
            ContainerHandle { credentials: Credentials::StorageAccount(account), container_name },
        ),
        (None, None) => Err(ConfigurationError::MissingCredentials),
        (Some(_), Some(_)) => Err(ConfigurationError::ConflictingCredentials),
    }
}

/// Makes the handle for the configured container. Nothing is sent: whether the
/// store accepts the credentials shows when the handle is first used.
pub fn build_client(
    connection_string: Option<String>,
    storage_account: Option<String>,
    container_name: String,
) -> (built: Result<Arc<ContainerHandle>, ConfigurationError>)
    ensures
        built is Ok <==> (connection_string is Some) != (storage_account is Some),
        built matches Ok(handle) ==> configured_client(
            connection_string,
            storage_account,
            container_name,
        ) == Ok::<ContainerHandle, ConfigurationError>(*handle),
        built matches Err(refusal) ==> configured_client(
            connection_string,
            storage_account,
            container_name,
        ) == Err::<ContainerHandle, ConfigurationError>(refusal),
{
    match (connection_string, storage_account) {
        (Some(secret), None) => Ok(
            Arc::new(
                ContainerHandle { credentials: Credentials::ConnectionString(secret), container_name },
            ),
        ),
        (None, Some(account)) => Ok(
            Arc::new(
                ContainerHandle { credentials: Credentials::StorageAccount(account), container_name },
            ),
        ),
        (None, None) => Err(ConfigurationError::MissingCredentials),
        (Some(_), Some(_)) => Err(ConfigurationError::ConflictingCredentials),
    }
}

} // verus!
