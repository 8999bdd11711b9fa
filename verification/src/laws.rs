//! What holds across calls.

use vstd::prelude::*;
use azure_storage_blobs::blob::responses::PutBlockBlobResponse;
use crate::client::configured_client;
use crate::error::{ClassifiedError, ClassifiedErrorView, HealthcheckFailureView};
use crate::healthcheck::probe_failure;
use crate::event::{EventFinalizer, EventFinalizers, InternalEventView};
use crate::request::{bytes_content, AzureBlobRequest};
use crate::retry::retriable;
use crate::service::{pending_for, Delivery, PendingUpload};
use crate::status::{is_server_error_code, is_status_code, TOO_MANY_REQUESTS};

verus! {

/// Finalizers leave a request once. The first taking hands out all that the
/// request held, in their order; a second taking hands out nothing, and finds
/// and leaves the request as the first left it.
pub proof fn lemma_finalizers_leave_once(
    request: AzureBlobRequest,
    first: EventFinalizers,
    drained: AzureBlobRequest,
    second: EventFinalizers,
    last: AzureBlobRequest,
)
    requires
        request.gives_up(first, drained),
        drained.gives_up(second, last),
    ensures
        first@ == request.metadata.finalizers@,
        drained.metadata.finalizers@ == Seq::<EventFinalizer>::empty(),
        second@ == Seq::<EventFinalizer>::empty(),
        drained.drained_to(last),
        request.drained_to(last),
{
}

/// A handle is made exactly when one of the two credentials is given, and
/// the configuration is refused exactly when both are given or neither is.
pub proof fn lemma_handle_iff_one_credential(
    connection_string: Option<String>,
    storage_account: Option<String>,
    container_name: String,
)
    ensures
        configured_client(connection_string, storage_account, container_name) is Ok <==> (
        connection_string is Some) != (storage_account is Some),
        configured_client(connection_string, storage_account, container_name) is Err <==> (
        connection_string is Some) == (storage_account is Some),
{
}

/// An upload that the store accepted is answered with the store's own
/// response and with the event count and size that the request stated,
/// whatever the payload holds; the signal counts the payload bytes.
pub proof fn lemma_accepted_upload_reports_request_sizes(
    request: AzureBlobRequest,
    inner: PutBlockBlobResponse,
    delivery: Delivery,
)
    requires
        pending_for(request).ends_in(Ok(inner), delivery),
    ensures
        delivery.result matches Ok(response) && response.inner == inner && response.count
            == request.metadata.count && response.events_byte_size == request.metadata.byte_size,
        delivery.signal@ == (InternalEventView::BytesSent {
            byte_size: bytes_content(request.blob_data).len() as usize,
            protocol: "https"@,
        }),
{
}

/// A failed upload reaches the retry policy as the transport classified it:
/// the driver sends the request again exactly when the store answered with a
/// fault of its own or with a call to slow down.
pub proof fn lemma_failed_upload_is_retried_on_server_faults(
    pending: PendingUpload,
    error: ClassifiedError,
    delivery: Delivery,
)
    requires
        pending.ends_in(Err(error), delivery),
    ensures
        delivery.result matches Err(passed) && passed@ == error@ && (retriable(passed@) <==> (error@ matches ClassifiedErrorView::Transport(
            status,
        ) && (is_server_error_code(status as int) || status == TOO_MANY_REQUESTS))),
{
}

/// The probe names a failure only where the store answered with a status
/// code. A failure without a status, or with a number that is no status
/// code, is passed on as it came, whatever the container is called.
pub proof fn lemma_unnamed_failure_is_passed_on(container_name: Seq<char>, error: ClassifiedErrorView)
    ensures
        probe_failure(container_name, error) is Diagnosed <==> (error matches ClassifiedErrorView::Transport(
            status,
        ) && is_status_code(status as int)),
        !(probe_failure(container_name, error) is Diagnosed) ==> probe_failure(container_name, error)
            == HealthcheckFailureView::Other(error),
{
}

} // verus!
