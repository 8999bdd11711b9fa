//! What a delivered request reports back to the pipeline.

use vstd::prelude::*;
use azure_storage_blobs::blob::responses::PutBlockBlobResponse;
use crate::event::{EventStatus, EventsSent};

verus! {

/// `azure_storage_blobs::blob::responses::PutBlockBlobResponse`: what the store
/// answers to an accepted upload.
#[verifier::external_type_specification]
#[verifier::external_body]
pub struct ExPutBlockBlobResponse(PutBlockBlobResponse);

/// The store's answer to an accepted upload, with the sizes that the request
/// came with. The sizes are carried over, never counted again.
#[derive(Debug)]
pub struct AzureBlobResponse {
    pub inner: PutBlockBlobResponse,
    pub count: usize,
    pub events_byte_size: usize,
}

impl AzureBlobResponse {
    /// How delivery ended. A response exists only for an upload that the store
    /// accepted, so the answer is always the same.
    pub fn event_status(&self) -> (status: EventStatus)
        ensures
            status == EventStatus::Delivered,
    {
        EventStatus::Delivered
    }

    /// What the request adds to the pipeline's accounting.
    pub fn events_sent(&self) -> (sent: EventsSent)
        ensures
            sent.count == self.count,
            sent.byte_size == self.events_byte_size,
            sent.output is None,
    {
        EventsSent { count: self.count, byte_size: self.events_byte_size, output: None }
    }
}

} // verus!
