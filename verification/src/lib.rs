//! Delivery of assembled batches to an Azure Blob Storage container.
//!
//! The crate decides; its caller performs the network calls. It settles how a
//! container is to be reached, what one upload sends, what a transport result
//! means for the pipeline, and whether a failed request is worth another try.

pub mod client;
pub mod error;
pub mod event;
pub mod healthcheck;
pub mod laws;
pub mod request;
pub mod response;
pub mod retry;
pub mod service;
pub mod status;

pub use client::{build_client, ContainerHandle, Credentials};
pub use error::{ClassifiedError, ConfigurationError, HealthcheckError, HealthcheckFailure};
pub use event::{EventFinalizer, EventFinalizers, EventStatus, EventsSent, InternalEvent};
pub use healthcheck::{build_healthcheck, Healthcheck};
pub use request::{AzureBlobMetadata, AzureBlobRequest};
pub use response::AzureBlobResponse;
pub use retry::{AzureBlobRetryLogic, RetryAction};
pub use service::{AzureBlobService, BlobUpload, Delivery, PendingUpload};
pub use status::StatusCode;
