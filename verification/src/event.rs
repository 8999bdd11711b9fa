//! What flows back to the pipeline: delivery acknowledgements, accounting and
//! the signals that observers of the sink receive.

use vstd::prelude::*;

verus! {

/// Names one batch of events whose owner waits to hear how delivery ended.
#[derive(Clone, Copy, Debug, PartialEq, Eq, Structural)]
pub struct EventFinalizer {
    pub batch: u64,
}

/// The finalizers of the events gathered into one request, in the order in
/// which the events were gathered.
#[derive(Debug)]
pub struct EventFinalizers {
    handles: Vec<EventFinalizer>,
}

impl View for EventFinalizers {
    type V = Seq<EventFinalizer>;

    closed spec fn view(&self) -> Seq<EventFinalizer> {
        self.handles@
    }
}

impl Default for EventFinalizers {
    /// No finalizers at all.
    fn default() -> (none: EventFinalizers)
        ensures
            none@ == Seq::<EventFinalizer>::empty(),
    {
        EventFinalizers { handles: Vec::new() }
    }
}

impl Clone for EventFinalizers {
    /// The same finalizers, in the same order.
    fn clone(&self) -> (copy: EventFinalizers)
        ensures
            copy@ == self@,
    {
        EventFinalizers { handles: self.handles.clone() }
    }
}

impl EventFinalizers {
    /// The collection that holds the given finalizers, in their order.
    pub fn new(handles: Vec<EventFinalizer>) -> (finalizers: EventFinalizers)
        ensures
            finalizers@ == handles@,
    {
        EventFinalizers { handles }
    }

    /// How many finalizers the collection holds.
    pub fn len(&self) -> (n: usize)
        ensures
            n == self@.len(),
    {
        self.handles.len()
    }

    /// Whether the collection holds no finalizer.
    pub fn is_empty(&self) -> (empty: bool)
        ensures
            empty == (self@.len() == 0),
    {
        self.handles.len() == 0
    }

    /// Hands the finalizers out, in their order.
    pub fn into_vec(self) -> (handles: Vec<EventFinalizer>)
        ensures
            handles@ == self@,
    {
        self.handles
    }
}

/// How delivery of a batch ended.
#[derive(Clone, Copy, Debug, PartialEq, Eq, Structural)]
pub enum EventStatus {
    /// The batch never reached a sink.
    Dropped,
    /// The destination has the batch.
    Delivered,
    /// Delivery failed in a way that another attempt may mend.
    Errored,
    /// The destination refused the batch for good.
    Rejected,
}

/// What one delivered request adds to the pipeline's accounting.
#[derive(Debug)]
pub struct EventsSent {
    pub count: usize,
    pub byte_size: usize,
    pub output: Option<String>,
}

/// A signal for the observers of the sink.
#[derive(Debug)]
pub enum InternalEvent {
    /// The store answered an upload with an error status.
    AzureBlobResponseError { code: u16 },
    /// An upload failed without a status from the store.
    AzureBlobHttpError { error: String },
    /// A payload went out over the named protocol.
    BytesSent { byte_size: usize, protocol: &'static str },
}

/// A signal as contracts speak of it, with texts as character sequences.
pub enum InternalEventView {
    AzureBlobResponseError { code: u16 },
    AzureBlobHttpError { error: Seq<char> },
    BytesSent { byte_size: usize, protocol: Seq<char> },
}

impl View for InternalEvent {
    type V = InternalEventView;

    open spec fn view(&self) -> InternalEventView {
        match *self {
            InternalEvent::AzureBlobResponseError { code } => InternalEventView::AzureBlobResponseError { code },
            InternalEvent::AzureBlobHttpError { error } => InternalEventView::AzureBlobHttpError { error: error@ },
            InternalEvent::BytesSent { byte_size, protocol } => InternalEventView::BytesSent {
                byte_size,
                protocol: protocol@,
            },
        }
    }
}

} // verus!
