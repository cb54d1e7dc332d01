use vstd::prelude::*;

use crate::format::ImageFormat;
use crate::image::{copy_bytes, CowImage};

verus! {

/// Where the single slot of a handoff buffer stands.
#[derive(Debug, Clone, Copy, PartialEq, Eq, Structural)]
pub enum BufferState {
    /// Nothing to read; the producer may write.
    Empty,
    /// A frame waits for the consumer; the producer drops what it gets.
    Filled,
    /// A native frame could not be decoded; no frame will ever come again.
    Error,
}

/// A native frame that could not be decoded.
#[derive(Debug, Clone, Copy, PartialEq, Eq, Structural)]
pub struct DecodeError;

/// What a producer call did with the frame it was handed.
#[derive(Debug, Clone, Copy, PartialEq, Eq, Structural)]
pub enum Delivery {
    /// The previous frame was not consumed yet: this one is dropped and the producer
    /// backs off briefly.
    Backoff,
    /// The frame was stored for the consumer.
    Stored,
    /// The frame could not be decoded: the buffer is closed for good.
    Failed,
    /// The buffer was already closed: nothing was done.
    Closed,
}

/// What a consumer poll found.
pub enum Pulled {
    /// Nothing yet: poll again after a short sleep.
    Pending,
    /// The producer failed: the stream has ended.
    End,
    /// A frame, now owned by the consumer.
    Frame(CowImage<'static>),
}

/// Abstract contents of a handoff buffer.
pub struct HandoffView {
    pub data: Seq<u8>,
    pub state: BufferState,
}

/// One interaction with a handoff buffer: a producer delivery with the outcome of
/// decoding, or a consumer poll.
pub enum HandoffEvent {
    Deliver(Result<Seq<u8>, DecodeError>),
    Poll,
}

/// The bytes of a decoding outcome.
pub open spec fn decoded_view(decoded: Result<&[u8], DecodeError>) -> Result<Seq<u8>, DecodeError> {
    match decoded {
        Ok(s) => Ok(s@),
        Err(e) => Err(e),
    }
}

/// The buffer after a producer delivery: only an empty slot is written; a decoded
/// frame fills it, a failed decode clears and closes it.
pub open spec fn deliver_spec(v: HandoffView, decoded: Result<Seq<u8>, DecodeError>) -> HandoffView {
    match v.state {
        BufferState::Empty => match decoded {
            Ok(bytes) => HandoffView { data: bytes, state: BufferState::Filled },
            Err(_) => HandoffView { data: Seq::empty(), state: BufferState::Error },
        },
        _ => v,
    }
}

/// The outcome that a producer delivery reports.
pub open spec fn delivery_spec(v: HandoffView, decoded: Result<Seq<u8>, DecodeError>) -> Delivery {
    match v.state {
        BufferState::Empty => match decoded {
            Ok(_) => Delivery::Stored,
            Err(_) => Delivery::Failed,
        },
        BufferState::Filled => Delivery::Backoff,
        BufferState::Error => Delivery::Closed,
    }
}

/// The buffer after a consumer poll: a filled slot is emptied, the others stay.
pub open spec fn poll_spec(v: HandoffView) -> HandoffView {
    match v.state {
        BufferState::Filled => HandoffView { data: Seq::empty(), state: BufferState::Empty },
        _ => v,
    }
}

/// The buffer after a sequence of events.
pub open spec fn run(v: HandoffView, events: Seq<HandoffEvent>) -> HandoffView
    decreases events.len(),
{
    if events.len() == 0 {
        v
    } else {
        let next = match events[0] {
            HandoffEvent::Deliver(decoded) => deliver_spec(v, decoded),
            HandoffEvent::Poll => poll_spec(v),
        };
        run(next, events.drop_first())
    }
}

/// A delivery into a filled slot leaves the waiting frame untouched: after two
/// deliveries into an empty slot, the next poll still yields the first payload.
pub proof fn lemma_filled_keeps_first(v: HandoffView, first: Seq<u8>, second: Result<Seq<u8>, DecodeError>)
    requires
        v.state == BufferState::Empty,
    ensures
        deliver_spec(deliver_spec(v, Ok(first)), second) == deliver_spec(v, Ok(first)),
        deliver_spec(deliver_spec(v, Ok(first)), second).state == BufferState::Filled,
        deliver_spec(deliver_spec(v, Ok(first)), second).data == first,
{
}

/// Any delivery into a filled slot leaves data and state as they were.
pub proof fn lemma_delivery_into_filled_is_dropped(v: HandoffView, decoded: Result<Seq<u8>, DecodeError>)
    requires
        v.state == BufferState::Filled,
    ensures
        deliver_spec(v, decoded) == v,
        delivery_spec(v, decoded) == Delivery::Backoff,
{
}

/// Once closed, a buffer stays closed whatever happens next, so every later poll
/// reports the end of the stream and none waits.
pub proof fn lemma_error_is_terminal(v: HandoffView, events: Seq<HandoffEvent>)
    requires
        v.state == BufferState::Error,
    ensures
        run(v, events) == v,
        run(v, events).state == BufferState::Error,
    decreases events.len(),
{
    if events.len() > 0 {
        lemma_error_is_terminal(v, events.drop_first());
    }
}

/// A consumer waits only while the slot is empty: the first poll after a frame is
/// stored yields that frame and empties the slot.
pub proof fn lemma_poll_after_fill(v: HandoffView, bytes: Seq<u8>)
    requires
        v.state == BufferState::Empty,
    ensures
        deliver_spec(v, Ok(bytes)).state == BufferState::Filled,
        deliver_spec(v, Ok(bytes)).data == bytes,
        poll_spec(deliver_spec(v, Ok(bytes))).state == BufferState::Empty,
{
}

/// Single-slot exchange between one producer, which is handed decoded native frames,
/// and one consumer, which polls for them.
pub struct HandoffBuffer {
    data: Vec<u8>,
    state: BufferState,
}

impl View for HandoffBuffer {
    type V = HandoffView;

    closed spec fn view(&self) -> HandoffView {
        HandoffView { data: self.data@, state: self.state }
    }
}

impl HandoffBuffer {
    /// An empty buffer.
    pub fn new() -> (r: Self)
        ensures
            r@.state == BufferState::Empty,
            r@.data == Seq::<u8>::empty(),
    {
        HandoffBuffer { data: Vec::new(), state: BufferState::Empty }
    }

    /// The current state of the slot.
    pub fn state(&self) -> (r: BufferState)
        ensures
            r == self@.state,
    {
        self.state
    }

    /// Producer side: hands over the outcome of decoding one native frame. A filled
    /// slot is left as it is (the new frame is dropped), a closed one too.
    pub fn deliver(&mut self, decoded: Result<&[u8], DecodeError>) -> (r: Delivery)
        ensures
            final(self)@ == deliver_spec(old(self)@, decoded_view(decoded)),
            r == delivery_spec(old(self)@, decoded_view(decoded)),
    {
        match self.state {
            BufferState::Filled => Delivery::Backoff,
            BufferState::Error => Delivery::Closed,
            BufferState::Empty => match decoded {
                Ok(pixels) => {
                    self.data = copy_bytes(pixels);
                    self.state = BufferState::Filled;
                    Delivery::Stored
                },
                Err(_) => {
                    self.data.clear();
                    self.state = BufferState::Error;
                    Delivery::Failed
                },
            },
        }
    }

    /// Consumer side: takes the waiting frame, if any, and tags it with `format`.
    pub fn poll(&mut self, format: ImageFormat) -> (r: Pulled)
        ensures
            final(self)@ == poll_spec(old(self)@),
            r is Pending <==> old(self)@.state == BufferState::Empty,
            r is End <==> old(self)@.state == BufferState::Error,
            r is Frame <==> old(self)@.state == BufferState::Filled,
            r matches Pulled::Frame(img) ==> img.bytes() == old(self)@.data && img.format == format
                && img.owned(),
    {
        match self.state {
            BufferState::Empty => Pulled::Pending,
            BufferState::Error => Pulled::End,
            BufferState::Filled => {
                let mut bytes: Vec<u8> = Vec::new();
                std::mem::swap(&mut bytes, &mut self.data);
                self.state = BufferState::Empty;
                Pulled::Frame(CowImage::from_bytes(bytes, format))
            },
        }
    }
}

} // verus!
