//! Whether a request that came back is worth sending again.

use vstd::prelude::*;
use crate::error::{ClassifiedError, ClassifiedErrorView};
use crate::response::AzureBlobResponse;
use crate::status::{is_server_error_code, StatusCode, TOO_MANY_REQUESTS};

verus! {

/// What the driver does with a response.
#[derive(Debug)]
pub enum RetryAction {
    /// Send the request again, for the reason given.
    Retry(String),
    /// Give the request up, for the reason given.
    DontRetry(String),
    /// The request is done.
    Successful,
}

/// The failures that another attempt may mend: the store reported a fault of
/// its own, or asked the client to slow down. A failure without a status is
/// never one of them.
pub open spec fn retriable(error: ClassifiedErrorView) -> bool {
    match error {
        ClassifiedErrorView::Transport(status) => is_server_error_code(status as int) || status
            == TOO_MANY_REQUESTS,
        ClassifiedErrorView::Other(_) => false,
    }
}

/// The retry policy of the sink.
#[derive(Debug, Clone, Copy)]
pub struct AzureBlobRetryLogic;

impl AzureBlobRetryLogic {
    /// Whether the failed request should be sent again.
    pub fn is_retriable_error(&self, error: &ClassifiedError) -> (retry: bool)
        ensures
            retry == retriable(error@),
    {
        match error {
            ClassifiedError::Transport(raw) => match StatusCode::from_u16(*raw) {
                Some(status) => status.is_server_error() || status.as_u16() == TOO_MANY_REQUESTS,
                None => false,
            },
            ClassifiedError::Other(_) => false,
        }
    }

    /// What to do with a response. Failure shows in the transport's error,
    /// never in a response: every response counts as success.
    pub fn should_retry_response(&self, response: &AzureBlobResponse) -> (action: RetryAction)
        ensures
            action is Successful,
    {
        RetryAction::Successful
    }
}

} // verus!
