//! One assembled object on its way to the store, and what is known of the
//! events inside it.

use vstd::prelude::*;
use bytes::Bytes;
use crate::event::{EventFinalizer, EventFinalizers};

verus! {

/// `bytes::Bytes`: a shared, immutable run of bytes.
#[verifier::external_type_specification]
#[verifier::external_body]
pub struct ExBytes(bytes::Bytes);

/// The bytes that a `Bytes` value holds, first to last.
pub uninterp spec fn bytes_content(bytes: Bytes) -> Seq<u8>;

/// `Bytes::len`: the number of bytes held.
#[verifier::external_body]
fn bytes_len(bytes: &Bytes) -> (n: usize)
    ensures
        n == bytes_content(*bytes).len(),
{
    bytes.len()
}

/// `Bytes::clone`: a second handle on the same bytes.
pub assume_specification[ <Bytes as Clone>::clone ](bytes: &Bytes) -> (copy: Bytes)
    ensures
        bytes_content(copy) == bytes_content(*bytes),
;

/// `std::mem::take`: hands out the value behind the reference and leaves the
/// type's default value in its place.
pub assume_specification<T: Default>[ core::mem::take::<T> ](dest: &mut T) -> (taken: T)
    ensures
        taken == *old(dest),
        call_ensures(T::default, (), *final(dest)),
;

/// What the pipeline knows of the events inside one request.
#[derive(Debug)]
pub struct AzureBlobMetadata {
    pub partition_key: String,
    pub count: usize,
    pub byte_size: usize,
    pub finalizers: EventFinalizers,
}

/// One object, fully assembled and ready to be uploaded.
#[derive(Debug)]
pub struct AzureBlobRequest {
    pub blob_data: Bytes,
    pub content_encoding: Option<&'static str>,
    pub content_type: &'static str,
    pub metadata: AzureBlobMetadata,
}

impl Clone for AzureBlobMetadata {
    /// The same key and sizes, and the same finalizers in the same order.
    fn clone(&self) -> (copy: AzureBlobMetadata)
        ensures
            copy.partition_key == self.partition_key,
            copy.count == self.count,
            copy.byte_size == self.byte_size,
            copy.finalizers@ == self.finalizers@,
    {
        AzureBlobMetadata {
            partition_key: self.partition_key.clone(),
            count: self.count,
            byte_size: self.byte_size,
            finalizers: self.finalizers.clone(),
        }
    }
}

impl Clone for AzureBlobRequest {
    /// The same payload bytes, content headers and metadata.
    fn clone(&self) -> (copy: AzureBlobRequest)
        ensures
            bytes_content(copy.blob_data) == bytes_content(self.blob_data),
            copy.content_encoding == self.content_encoding,
            copy.content_type == self.content_type,
            copy.metadata.partition_key == self.metadata.partition_key,
            copy.metadata.count == self.metadata.count,
            copy.metadata.byte_size == self.metadata.byte_size,
            copy.metadata.finalizers@ == self.metadata.finalizers@,
    {
        AzureBlobRequest {
            blob_data: self.blob_data.clone(),
            content_encoding: self.content_encoding,
            content_type: self.content_type,
            metadata: self.metadata.clone(),
        }
    }
}

impl AzureBlobRequest {
    /// That `after` is `self` with its finalizers gone and nothing else changed.
    pub open spec fn drained_to(self, after: AzureBlobRequest) -> bool {
        &&& after.metadata.finalizers@ == Seq::<EventFinalizer>::empty()
        &&& after.blob_data == self.blob_data
        &&& after.content_encoding == self.content_encoding
        &&& after.content_type == self.content_type
        &&& after.metadata.partition_key == self.metadata.partition_key
        &&& after.metadata.count == self.metadata.count
        &&& after.metadata.byte_size == self.metadata.byte_size
    }

    /// That taking the finalizers of `self` hands out `taken` and leaves `after`.
    pub open spec fn gives_up(self, taken: EventFinalizers, after: AzureBlobRequest) -> bool {
        &&& taken@ == self.metadata.finalizers@
        &&& self.drained_to(after)
    }

    /// The number of events that an acknowledgement of this request stands for.
    pub fn ack_size(&self) -> (n: usize)
        ensures
            n == self.metadata.count,
    {
        self.metadata.count
    }

    /// The number of payload bytes.
    pub fn payload_len(&self) -> (n: usize)
        ensures
            n == bytes_content(self.blob_data).len(),
    {
        bytes_len(&self.blob_data)
    }

    /// Moves the finalizers out of the request. They leave once: whoever asks
    /// again gets an empty collection.
    pub fn take_finalizers(&mut self) -> (taken: EventFinalizers)
        ensures
            old(self).gives_up(taken, *final(self)),
    {
        std::mem::take(&mut self.metadata.finalizers)
    }
}

} // verus!
