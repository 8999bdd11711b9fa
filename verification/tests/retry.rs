use azure_common::error::ClassifiedError;
use azure_common::response::AzureBlobResponse;
use azure_common::retry::{AzureBlobRetryLogic, RetryAction};
use azure_storage_blobs::blob::responses::PutBlockBlobResponse;
use http::HeaderMap;

fn retriable(status: u16) -> bool {
    AzureBlobRetryLogic.is_retriable_error(&ClassifiedError::Transport(status))
}

fn accepted() -> PutBlockBlobResponse {
    let mut headers = HeaderMap::new();
    headers.insert("etag", "\"0x8DC0A1B2C3D4E5F\"".parse().unwrap());
    headers.insert("last-modified", "Mon, 01 Jan 2024 00:00:00 GMT".parse().unwrap());
    headers.insert("x-ms-request-id", "6e4a3f0c-1d2b-4c5a-9e8f-0a1b2c3d4e5f".parse().unwrap());
    headers.insert("date", "Mon, 01 Jan 2024 00:00:01 GMT".parse().unwrap());
    headers.insert("x-ms-request-server-encrypted", "true".parse().unwrap());
    PutBlockBlobResponse::from_headers(&headers).unwrap()
}

#[test]
fn server_errors_and_throttling_are_retried() {
    assert!(retriable(429));
    assert!(retriable(500));
    assert!(retriable(503));
}

#[test]
fn client_errors_are_not_retried() {
    assert!(!retriable(400));
    assert!(!retriable(403));
    assert!(!retriable(404));
}

#[test]
fn the_retriable_range_ends_where_the_five_hundreds_end() {
    assert!(!retriable(428));
    assert!(!retriable(430));
    assert!(!retriable(499));
    assert!(retriable(599));
    assert!(!retriable(600));
    assert!(!retriable(200));
}

#[test]
fn numbers_that_are_no_status_are_not_retried() {
    assert!(!retriable(0));
    assert!(!retriable(99));
    assert!(!retriable(1000));
    assert!(!retriable(5000));
    assert!(!retriable(u16::MAX));
}

#[test]
fn failures_without_a_status_are_not_retried() {
    let logic = AzureBlobRetryLogic;
    assert!(!logic.is_retriable_error(&ClassifiedError::Other("connection reset".to_string())));
    assert!(!logic.is_retriable_error(&ClassifiedError::Other("503".to_string())));
    assert!(!logic.is_retriable_error(&ClassifiedError::Other(String::new())));
}

#[test]
fn a_response_is_never_retried() {
    let logic = AzureBlobRetryLogic;
    let response = AzureBlobResponse { inner: accepted(), count: 50, events_byte_size: 1024 };
    assert!(matches!(logic.should_retry_response(&response), RetryAction::Successful));
    let empty = AzureBlobResponse { inner: accepted(), count: 0, events_byte_size: 0 };
    assert!(matches!(logic.should_retry_response(&empty), RetryAction::Successful));
}
