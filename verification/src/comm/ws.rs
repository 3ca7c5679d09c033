//! The socket server transport and the duplex per-connection machine.
//!
//! For each accepted connection two logical flows run concurrently and share
//! one wire: flow (a) forwards every bus event as a serialized frame, stamping
//! the platform tag; flow (b) reads inbound frames, dispatches each as an
//! action request, and answers on the same connection.  Because both flows
//! write to one socket, write access must be mutually exclusive: both funnel
//! whole frames into a single per-connection outbound queue, drained by the
//! one writer that owns the socket.  [`lemma_single_writer_no_corruption`]
//! states what that buys: however the flows interleave, the wire is a
//! concatenation of whole frames and neither stream disturbs the other.
use crate::action::{frame_response_ok, ActionRegistry};
use crate::bus::{BusPoll, BusSubscriber, EventBus, PollOutcome};
use crate::codec::{envelope_json, event_frame_text, stamped};
use crate::event::Event;
use vstd::prelude::*;

verus! {

/// The socket server transport: listens for inbound connections on a host and
/// port; each accepted connection runs one [`Connection`] machine.
#[derive(Clone, Debug)]
pub struct WebSocket {
    pub host: String,
    pub port: u16,
}

impl WebSocket {
    pub fn new(host: &str, port: u16) -> (w: WebSocket)
        ensures
            w.host@ == host@,
            w.port == port,
    {
        WebSocket { host: host.to_owned(), port }
    }
}

/// One whole text frame bound for the wire: an event push or an action
/// response.  A frame is written atomically, never split or merged.
#[derive(Debug)]
pub enum Frame {
    Event(String),
    Response(String),
}

/// Mathematical view of a [`Frame`].
pub enum FrameView {
    Event(Seq<char>),
    Response(Seq<char>),
}

impl View for Frame {
    type V = FrameView;

    open spec fn view(&self) -> FrameView {
        match self {
            Frame::Event(s) => FrameView::Event(s@),
            Frame::Response(s) => FrameView::Response(s@),
        }
    }
}

/// The views of a sequence of frames, in order.
pub open spec fn frame_views(s: Seq<Frame>) -> Seq<FrameView> {
    s.map_values(|f: Frame| f@)
}

pub open spec fn is_event_frame(f: FrameView) -> bool {
    f is Event
}

pub open spec fn is_response_frame(f: FrameView) -> bool {
    f is Response
}

/// The text one frame puts on the wire.
pub open spec fn frame_text(f: FrameView) -> Seq<char> {
    match f {
        FrameView::Event(s) => s,
        FrameView::Response(s) => s,
    }
}

/// The characters that cross the wire when the queue is drained in order by
/// the single writer.
pub open spec fn wire_text(frames: Seq<FrameView>) -> Seq<char>
    decreases frames.len(),
{
    if frames.len() == 0 {
        Seq::empty()
    } else {
        wire_text(frames.drop_last()) + frame_text(frames.last())
    }
}

/// The event-push subsequence of the queue.
pub open spec fn event_stream(q: Seq<FrameView>) -> Seq<FrameView> {
    q.filter(|f: FrameView| is_event_frame(f))
}

/// The action-response subsequence of the queue.
pub open spec fn response_stream(q: Seq<FrameView>) -> Seq<FrameView> {
    q.filter(|f: FrameView| is_response_frame(f))
}

/// Interleaving the two flows through one serialized writer corrupts neither
/// stream: a newly queued frame lands contiguously at the end of the wire,
/// never inside an earlier frame; a queued response leaves the event stream
/// untouched and extends only the response stream; and symmetrically for a
/// queued event.
pub proof fn lemma_single_writer_no_corruption(q: Seq<FrameView>, f: FrameView)
    ensures
        wire_text(q.push(f)) == wire_text(q) + frame_text(f),
        is_event_frame(f) ==> event_stream(q.push(f)) == event_stream(q).push(f)
            && response_stream(q.push(f)) == response_stream(q),
        is_response_frame(f) ==> response_stream(q.push(f)) == response_stream(q).push(f)
            && event_stream(q.push(f)) == event_stream(q),
{
    reveal_with_fuel(Seq::<FrameView>::filter, 2);
    assert(q.push(f).drop_last() =~= q);
    assert(q.push(f).last() == f);
}

/// The per-connection outbound queue.  Both flows enqueue whole frames here;
/// a single writer drains it in order, so at any instant one writer owns the
/// socket.
#[derive(Debug)]
pub struct OutboundQueue {
    pub frames: Vec<Frame>,
}

impl View for OutboundQueue {
    type V = Seq<FrameView>;

    open spec fn view(&self) -> Seq<FrameView> {
        frame_views(self.frames@)
    }
}

impl OutboundQueue {
    pub fn new() -> (q: OutboundQueue)
        ensures
            q@ == Seq::<FrameView>::empty(),
    {
        let q = OutboundQueue { frames: Vec::new() };
        proof {
            assert(q@ =~= Seq::<FrameView>::empty());
        }
        q
    }

    /// Appends one whole frame for the writer.
    pub fn enqueue(&mut self, f: Frame)
        ensures
            final(self)@ == old(self)@.push(f@),
    {
        let ghost pre = self.frames@;
        let ghost fv = f@;
        self.frames.push(f);
        proof {
            assert(self@ =~= frame_views(pre).push(fv));
        }
    }

    /// Hands the writer the next frame, in queue order.
    pub fn next_frame(&mut self) -> (r: Option<Frame>)
        ensures
            match r {
                Some(f) => old(self)@.len() > 0 && f@ == old(self)@[0]
                    && final(self)@ == old(self)@.skip(1),
                None => old(self)@.len() == 0 && final(self)@ == old(self)@,
            },
    {
        if self.frames.len() == 0 {
            None
        } else {
            let f = self.frames.remove(0);
            proof {
                assert(self@ =~= frame_views(old(self).frames@).skip(1));
            }
            Some(f)
        }
    }
}

/// The duplex per-connection machine, shared by the socket server and the
/// reverse client: one bus subscription for flow (a), one outbound queue that
/// both flows write through.
pub struct Connection {
    pub sub: BusSubscriber,
    pub outbound: OutboundQueue,
}

impl Connection {
    /// Opens the machine for a freshly accepted (or established) connection:
    /// a new bus subscription — so the peer sees only events published from
    /// now on — and an empty outbound queue.
    pub fn open(bus: &EventBus<Event>) -> (c: Connection)
        requires
            bus.wf(),
        ensures
            bus.wf_sub(c.sub),
            c.sub.cursor as int == bus.total(),
            c.sub.joined@ == bus.total(),
            c.outbound@ == Seq::<FrameView>::empty(),
    {
        Connection { sub: bus.subscribe(), outbound: OutboundQueue::new() }
    }

    /// Flow (a): takes the subscriber's next observation off the bus.  A
    /// delivered event is queued as one whole event frame, stamped with the
    /// gateway's platform tag; a loss report only advances the cursor (the
    /// loss is already surfaced to this consumer through the subscription);
    /// with nothing new the connection is left untouched.  Returns whether
    /// anything was observed.
    pub fn pump_bus(&mut self, bus: &EventBus<Event>, platform: &str) -> (progressed: bool)
        requires
            bus.wf(),
            bus.wf_sub(old(self).sub),
        ensures
            bus.wf_sub(final(self).sub),
            final(self).sub.joined == old(self).sub.joined,
            match bus.poll_outcome(old(self).sub.cursor as int) {
                PollOutcome::Empty => !progressed && *final(self) == *old(self),
                PollOutcome::Lagged(n) => progressed && final(self).outbound@ == old(self).outbound@
                    && final(self).sub.cursor as int == bus.dropped(),
                PollOutcome::Deliver(i) => progressed && final(self).sub.cursor as int == i + 1
                    && final(self).outbound@ == old(self).outbound@.push(
                    FrameView::Event(envelope_json(stamped(bus.history()[i]@, platform@))),
                ),
            },
    {
        match bus.poll(&mut self.sub) {
            BusPoll::Empty => false,
            BusPoll::Lagged(_) => true,
            BusPoll::Event(event) => {
                let text = event_frame_text(event, platform);
                self.outbound.enqueue(Frame::Event(text));
                true
            },
        }
    }

    /// Flow (b): answers one inbound wire frame.  The response — the
    /// handler's result, or a structured error for an unknown action, a
    /// failed handler or an unparsable frame — is queued as one whole
    /// response frame on the same connection.  A bad frame never drops the
    /// connection.
    pub fn on_inbound<H: Fn(serde_json::Value) -> Result<String, String>>(
        &mut self,
        registry: &ActionRegistry<H>,
        text: &str,
    )
        requires
            registry.wf(),
            forall|n: Seq<char>, p: serde_json::Value|
                registry@.contains_key(n) ==> #[trigger] call_requires(registry@[n], (p,)),
        ensures
            final(self).sub == old(self).sub,
            exists|resp: Seq<char>|
                final(self).outbound@ == old(self).outbound@.push(FrameView::Response(resp))
                    && frame_response_ok(registry@, text@, resp),
    {
        let resp = registry.handle_frame_text(text);
        self.outbound.enqueue(Frame::Response(resp));
    }

    /// The single writer takes the next whole frame to put on the wire.
    pub fn next_outbound(&mut self) -> (r: Option<Frame>)
        ensures
            final(self).sub == old(self).sub,
            match r {
                Some(f) => old(self).outbound@.len() > 0 && f@ == old(self).outbound@[0]
                    && final(self).outbound@ == old(self).outbound@.skip(1),
                None => old(self).outbound@.len() == 0
                    && final(self).outbound@ == old(self).outbound@,
            },
    {
        self.outbound.next_frame()
    }
}

} // verus!
