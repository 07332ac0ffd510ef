//! Translation of an event stream into typed events: which frames are
//! surfaced, which are dropped, and where the sequence ends.
use vstd::prelude::*;
use crate::error::{AnthropicError, ErrorResponse};
use crate::types::MessagesStreamEvent;

verus! {

/// One item of a streamed response.
pub type StreamItem = Result<MessagesStreamEvent, AnthropicError>;

/// How a message frame's data is to be read, by the frame's event name.
#[derive(Copy, Clone, Debug, PartialEq, Eq, Structural)]
pub enum FrameKind {
    /// `ping`: a keep-alive, dropped.
    Ping,
    /// `error`: the API's error envelope.
    Error,
    /// Any other name: one of the stream events.
    Event,
}

pub open spec fn kind_of(name: Seq<char>) -> FrameKind {
    if name == "ping"@ {
        FrameKind::Ping
    } else if name == "error"@ {
        FrameKind::Error
    } else {
        FrameKind::Event
    }
}

/// The kind of a message frame named `name`.
pub fn frame_kind(name: &str) -> (r: FrameKind)
    ensures
        r == kind_of(name@),
{
    let n = String::from_str(name);
    if n == String::from_str("ping") {
        FrameKind::Ping
    } else if n == String::from_str("error") {
        FrameKind::Error
    } else {
        FrameKind::Event
    }
}

/// What the event source handed over, with a message frame's data already
/// decoded as its kind calls for.
pub enum Incoming {
    /// The connection opened.
    Open,
    /// A `ping` frame.
    Ping,
    /// An `error` frame: the error envelope, or the decoder's error.
    ErrorFrame(Result<ErrorResponse, serde_json::Error>),
    /// Any other frame: the stream event, or the decoder's error.
    EventFrame(Result<MessagesStreamEvent, serde_json::Error>),
    /// The stream ended cleanly.
    Ended,
    /// The connection failed.
    Failed(Box<reqwest_eventsource::Error>),
}

/// What becomes of one incoming frame.
pub enum Delivery {
    /// Nothing is surfaced; the stream goes on.
    Skip,
    /// The item is surfaced and the stream goes on.
    Deliver(StreamItem),
    /// The item is surfaced and is the last one.
    Last(StreamItem),
    /// The stream ends with nothing more surfaced.
    Close,
}

pub open spec fn delivery(i: Incoming) -> Delivery {
    match i {
        Incoming::Open => Delivery::Skip,
        Incoming::Ping => Delivery::Skip,
        Incoming::ErrorFrame(Ok(env)) => Delivery::Last(Err(AnthropicError::Api(env.error))),
        Incoming::ErrorFrame(Err(e)) => Delivery::Last(Err(AnthropicError::Deserialize(e))),
        Incoming::EventFrame(Ok(ev)) => Delivery::Deliver(Ok(ev)),
        Incoming::EventFrame(Err(e)) => Delivery::Last(Err(AnthropicError::Deserialize(e))),
        Incoming::Ended => Delivery::Close,
        Incoming::Failed(e) => Delivery::Last(Err(AnthropicError::EventSource(e))),
    }
}

/// Whether the stream is over after this delivery.
pub open spec fn ends(d: Delivery) -> bool {
    d is Last || d is Close
}

/// The items that a consumer observes from the frames `s`, in order.
pub open spec fn surfaced(s: Seq<Incoming>) -> Seq<StreamItem>
    decreases s.len(),
{
    if s.len() == 0 {
        Seq::empty()
    } else {
        match delivery(s[0]) {
            Delivery::Skip => surfaced(s.drop_first()),
            Delivery::Deliver(item) => seq![item] + surfaced(s.drop_first()),
            Delivery::Last(item) => seq![item],
            Delivery::Close => Seq::empty(),
        }
    }
}

/// A streamed call surfaces at most one failure, and only as its last item:
/// whatever frames arrive, no item follows an error.
pub proof fn lemma_failure_is_last(s: Seq<Incoming>)
    ensures
        forall|k: int| 0 <= k < surfaced(s).len() && (#[trigger] surfaced(s)[k]) is Err
            ==> k == surfaced(s).len() - 1,
    decreases s.len(),
{
    if s.len() > 0 {
        lemma_failure_is_last(s.drop_first());
        match delivery(s[0]) {
            Delivery::Deliver(item) => {
                let t = surfaced(s.drop_first());
                assert(surfaced(s) == seq![item] + t);
                assert forall|k: int| 0 <= k < surfaced(s).len() && (#[trigger] surfaced(s)[k]) is Err
                    implies k == surfaced(s).len() - 1 by {
                    assert(k > 0);
                    assert(surfaced(s)[k] == t[k - 1]);
                }
            },
            _ => {},
        }
    }
}

/// Frames that arrive after the stream is over are never read: once a frame
/// ends the stream, what follows it changes nothing that is surfaced.
pub proof fn lemma_nothing_after_end(s: Seq<Incoming>, t: Seq<Incoming>)
    requires
        s.len() > 0,
        ends(delivery(s.last())),
    ensures
        surfaced(s + t) == surfaced(s),
    decreases s.len(),
{
    if s.len() > 1 {
        assert((s + t).drop_first() =~= s.drop_first() + t);
        assert(s.drop_first().last() == s.last());
        lemma_nothing_after_end(s.drop_first(), t);
    } else {
        assert((s + t)[0] == s[0]);
    }
}

/// What becomes of frame `i`.
pub fn deliver(i: Incoming) -> (r: Delivery)
    ensures
        r == delivery(i),
{
    match i {
        Incoming::Open => Delivery::Skip,
        Incoming::Ping => Delivery::Skip,
        Incoming::ErrorFrame(Ok(env)) => Delivery::Last(Err(AnthropicError::Api(env.error))),
        Incoming::ErrorFrame(Err(e)) => Delivery::Last(Err(AnthropicError::Deserialize(e))),
        Incoming::EventFrame(Ok(ev)) => Delivery::Deliver(Ok(ev)),
        Incoming::EventFrame(Err(e)) => Delivery::Last(Err(AnthropicError::Deserialize(e))),
        Incoming::Ended => Delivery::Close,
        Incoming::Failed(e) => Delivery::Last(Err(AnthropicError::EventSource(e))),
    }
}

/// The pumping side of one streamed call: it takes frames from the wire one at
/// a time until the stream ends or the consumer goes away.
pub struct Pump {
    done: bool,
}

impl Pump {
    /// Whether the pump has stopped; a stopped pump reads no more frames.
    pub closed spec fn stopped(&self) -> bool {
        self.done
    }

    /// A pump for a stream that has just been opened.
    pub fn new() -> (r: Self)
        ensures
            !r.stopped(),
    {
        Pump { done: false }
    }

    /// Whether the pump has stopped.
    pub fn is_done(&self) -> (r: bool)
        ensures
            r == self.stopped(),
    {
        self.done
    }

    /// The item to hand to the consumer for frame `i`, if any; the pump stops
    /// once the stream is over.
    pub fn on_frame(&mut self, i: Incoming) -> (r: Option<StreamItem>)
        requires
            !old(self).stopped(),
        ensures
            final(self).stopped() == ends(delivery(i)),
            delivery(i) is Deliver ==> r == Some(delivery(i)->Deliver_0),
            delivery(i) is Last ==> r == Some(delivery(i)->Last_0),
            delivery(i) is Skip || delivery(i) is Close ==> r is None,
    {
        match deliver(i) {
            Delivery::Skip => None,
            Delivery::Deliver(item) => Some(item),
            Delivery::Last(item) => {
                self.done = true;
                Some(item)
            },
            Delivery::Close => {
                self.done = true;
                None
            },
        }
    }

    /// Records whether the consumer took the last item: once it has gone
    /// away, the pump stops, so that the connection can be closed.
    pub fn on_sent(&mut self, accepted: bool)
        ensures
            final(self).stopped() == (old(self).stopped() || !accepted),
    {
        if !accepted {
            self.done = true;
        }
    }
}

/// The items that a consumer that keeps pulling observes from `frames`: each
/// frame goes through a pump, in order, until the pump stops.
pub fn translate(frames: Vec<Incoming>) -> (r: Vec<StreamItem>)
    ensures
        r@ == surfaced(frames@),
{
    let mut pump = Pump::new();
    let mut out: Vec<StreamItem> = Vec::new();
    let mut rest = frames;
    while !pump.is_done() && rest.len() > 0
        invariant
            pump.stopped() ==> out@ == surfaced(frames@),
            !pump.stopped() ==> out@ + surfaced(rest@) == surfaced(frames@),
        decreases rest.len(),
    {
        let ghost before = rest@;
        let i = rest.remove(0);
        proof {
            assert(before.drop_first() =~= rest@);
        }
        match pump.on_frame(i) {
            Some(item) => {
                out.push(item);
            },
            None => {},
        }
        proof {
            assert(before.len() > 0);
            match delivery(before[0]) {
                Delivery::Deliver(item) => {
                    assert(surfaced(before) == seq![item] + surfaced(rest@));
                    assert(out@ + surfaced(rest@) =~= surfaced(frames@));
                },
                Delivery::Last(item) => {
                    assert(surfaced(before) == seq![item]);
                },
                _ => {},
            }
        }
    }
    proof {
        if !pump.stopped() {
            assert(out@ + surfaced(rest@) =~= out@);
        }
    }
    out
}

} // verus!
