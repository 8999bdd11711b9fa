//! The upload service: one request in, one upload out, one answer back.
//!
//! The service keeps no queue and limits nothing. `call` says what to upload;
//! the caller performs the upload and brings the outcome to `complete`.

use std::sync::Arc;
use vstd::prelude::*;
use azure_storage_blobs::blob::responses::PutBlockBlobResponse;
use bytes::Bytes;
use crate::client::{share, ContainerHandle};
use crate::error::{ClassifiedError, ClassifiedErrorView};
use crate::event::{InternalEvent, InternalEventView};
use crate::request::{bytes_content, AzureBlobRequest};
use crate::response::AzureBlobResponse;

verus! {

/// One upload for the transport to perform: which blob, in which container,
/// with which bytes and content headers.
pub struct BlobUpload {
    pub container: Arc<ContainerHandle>,
    pub blob_name: String,
    pub body: Bytes,
    pub content_type: &'static str,
    pub content_encoding: Option<&'static str>,
}

/// What the service remembers of a request while its upload is under way.
#[derive(Clone, Copy, Debug, PartialEq, Eq, Structural)]
pub struct PendingUpload {
    /// The number of payload bytes handed to the transport.
    pub payload_len: usize,
    /// The number of events in the payload, as the request stated it.
    pub count: usize,
    /// The size of those events, as the request stated it.
    pub events_byte_size: usize,
}

/// How one call of the service ended: the signal for the observers, and the
/// answer for the driver.
#[derive(Debug)]
pub struct Delivery {
    pub signal: InternalEvent,
    pub result: Result<AzureBlobResponse, ClassifiedError>,
}

/// The upload that a request asks for, on the given container: the blob is
/// named by the request's partition key, and payload and content headers go
/// out as they came.
pub open spec fn upload_for(container: Arc<ContainerHandle>, request: AzureBlobRequest) -> BlobUpload {
    BlobUpload {
        container,
        blob_name: request.metadata.partition_key,
        body: request.blob_data,
        content_type: request.content_type,
        content_encoding: request.content_encoding,
    }
}

/// What is kept of a request while its upload is under way.
pub open spec fn pending_for(request: AzureBlobRequest) -> PendingUpload {
    PendingUpload {
        payload_len: bytes_content(request.blob_data).len() as usize,
        count: request.metadata.count,
        events_byte_size: request.metadata.byte_size,
    }
}

/// The signal that the outcome of an upload of `payload_len` bytes calls for:
/// the bytes sent where the store accepted them, the status where it answered
/// with one, the failure's text otherwise.
pub open spec fn signal_for(payload_len: usize, failure: Option<ClassifiedErrorView>) -> InternalEventView {
    match failure {
        None => InternalEventView::BytesSent { byte_size: payload_len, protocol: "https"@ },
        Some(ClassifiedErrorView::Transport(code)) => InternalEventView::AzureBlobResponseError { code },
        Some(ClassifiedErrorView::Other(text)) => InternalEventView::AzureBlobHttpError { error: text },
    }
}

/// The upload service of one container.
pub struct AzureBlobService {
    client: Arc<ContainerHandle>,
}

impl Clone for AzureBlobService {
    /// A second service for the same container.
    fn clone(&self) -> (copy: AzureBlobService)
        ensures
            copy.container() == self.container(),
    {
        AzureBlobService { client: share(&self.client) }
    }
}

impl AzureBlobService {
    /// The container that the service uploads to.
    pub closed spec fn container(&self) -> Arc<ContainerHandle> {
        self.client
    }

    /// The service for the given container.
    pub fn new(client: Arc<ContainerHandle>) -> (service: AzureBlobService)
        ensures
            service.container() == client,
    {
        AzureBlobService { client }
    }

    /// The container that the service uploads to.
    pub fn client(&self) -> (client: &Arc<ContainerHandle>)
        ensures
            *client == self.container(),
    {
        &self.client
    }

    /// Whether the service takes a request now. It always does.
    pub fn poll_ready(&mut self) -> (ready: Result<(), ClassifiedError>)
        ensures
            ready is Ok,
            final(self).container() == old(self).container(),
    {
        Ok(())
    }

    /// Delivers one request through the given transport: one upload, handed
    /// to the transport once, and its outcome brought to an end as `complete`
    /// ends it. Nothing is tried a second time.
    pub fn deliver<T>(&mut self, request: AzureBlobRequest, transport: T) -> (delivery: Delivery) where
        T: FnOnce(BlobUpload) -> Result<PutBlockBlobResponse, ClassifiedError>,

        requires
            call_requires(transport, (upload_for(old(self).container(), request),)),
        ensures
            final(self).container() == old(self).container(),
            exists|outcome: Result<PutBlockBlobResponse, ClassifiedError>|
                {
                    &&& call_ensures(transport, (upload_for(old(self).container(), request),), outcome)
                    &&& pending_for(request).ends_in(outcome, delivery)
                },
    {
        let (upload, pending) = self.call(request);
        let outcome = transport(upload);
        pending.complete(outcome)
    }

    /// Starts the delivery of one request: says what is to be uploaded, and
    /// what to keep until the upload has come back. Each call stands for one
    /// upload; the service itself stays as it was.
    pub fn call(&mut self, request: AzureBlobRequest) -> (started: (BlobUpload, PendingUpload))
        ensures
            final(self).container() == old(self).container(),
            started.0 == upload_for(old(self).container(), request),
            started.1 == pending_for(request),
    {
        let payload_len = request.payload_len();
        let pending = PendingUpload {
            payload_len,
            count: request.metadata.count,
            events_byte_size: request.metadata.byte_size,
        };
        let upload = BlobUpload {
            container: share(&self.client),
            blob_name: request.metadata.partition_key,
            body: request.blob_data,
            content_type: request.content_type,
            content_encoding: request.content_encoding,
        };
        (upload, pending)
    }
}

impl PendingUpload {
    /// That `delivery` is how this upload ends on the given outcome. An
    /// accepted upload becomes a response that holds the store's answer and
    /// the sizes of the request; a failure goes on as it is. The signal is
    /// the one that the outcome calls for.
    pub open spec fn ends_in(
        self,
        outcome: Result<PutBlockBlobResponse, ClassifiedError>,
        delivery: Delivery,
    ) -> bool {
        match outcome {
            Ok(inner) => {
                &&& delivery.signal@ == signal_for(self.payload_len, None)
                &&& delivery.result matches Ok(response)
                &&& response.inner == inner
                &&& response.count == self.count
                &&& response.events_byte_size == self.events_byte_size
            },
            Err(error) => {
                &&& delivery.signal@ == signal_for(self.payload_len, Some(error@))
                &&& delivery.result matches Err(passed)
                &&& passed@ == error@
            },
        }
    }

    /// Ends the delivery with what the transport brought back. Either way
    /// the observers get one signal and the driver one answer.
    pub fn complete(self, outcome: Result<PutBlockBlobResponse, ClassifiedError>) -> (delivery: Delivery)
        ensures
            self.ends_in(outcome, delivery),
    {
        match outcome {
            Ok(inner) => Delivery {
                signal: InternalEvent::BytesSent { byte_size: self.payload_len, protocol: "https" },
                result: Ok(
                    AzureBlobResponse { inner, count: self.count, events_byte_size: self.events_byte_size },
                ),
            },
            Err(error) => {
                let signal = match &error {
                    ClassifiedError::Transport(code) => InternalEvent::AzureBlobResponseError { code: *code },
                    ClassifiedError::Other(text) => InternalEvent::AzureBlobHttpError { error: text.clone() },
                };
                Delivery { signal, result: Err(error) }
            },
        }
    }
}

} // verus!
