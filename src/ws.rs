use vstd::prelude::*;
use crate::response::{GraphQlResponse, MalformedResponse, WsResponse};
use crate::text::same_text;

verus! {

/// The acknowledgment of the connection never arrived: the stream failed or
/// closed before its first message.
#[derive(Debug, Clone, Copy, PartialEq, Eq, Structural)]
pub struct WsConnectionInitError;

/// Where a WebSocket attempt stands once it is connected.
#[derive(Debug, Clone, Copy, PartialEq, Eq, Structural)]
pub enum WsPhase {
    AwaitingAck,
    Streaming,
    Done,
}

/// What the stream gave in place of the acknowledgment.
#[derive(Debug, Clone, Copy, PartialEq, Eq, Structural)]
pub enum AckEvent {
    Message,
    TransportError,
    Closed,
}

/// One item read from the stream while subscribed.
pub enum InboundFrame {
    /// A text frame that decoded as a protocol message.
    Message(WsResponse),
    /// A text frame that did not decode as a protocol message.
    Malformed(MalformedResponse),
    /// A frame that is not text.
    NotText,
    /// The transport failed on this frame.
    ReceiveError,
}

/// What the executor does with one inbound frame.
pub enum FrameAction {
    /// Hand the response to the sink.
    Deliver(GraphQlResponse),
    /// Log a message that carries no response; `ends` is set on `complete`.
    LogControl { message: WsResponse, ends: bool },
    /// Log a frame that is not text, and go on.
    LogNotText,
    /// Log a transport error on one frame, and go on.
    LogReceiveError,
    /// The attempt fails.
    Fail(MalformedResponse),
}

/// The state of one WebSocket attempt after the connection was made.
#[derive(Debug, Clone, Copy, PartialEq, Eq, Structural)]
pub struct WsSession {
    pub phase: WsPhase,
}

pub open spec fn is_complete(m: WsResponse) -> bool {
    m.message_type@ == "complete"@
}

/// The action for a frame, and the phase that follows it.
pub open spec fn frame_step(frame: InboundFrame) -> (FrameAction, WsPhase) {
    match frame {
        InboundFrame::Message(m) => match m.payload {
            Some(p) => (FrameAction::Deliver(p), WsPhase::Streaming),
            None => (
                FrameAction::LogControl { message: m, ends: is_complete(m) },
                if is_complete(m) { WsPhase::Done } else { WsPhase::Streaming },
            ),
        },
        InboundFrame::Malformed(e) => (FrameAction::Fail(e), WsPhase::Done),
        InboundFrame::NotText => (FrameAction::LogNotText, WsPhase::Streaming),
        InboundFrame::ReceiveError => (FrameAction::LogReceiveError, WsPhase::Streaming),
    }
}

/// What a subscription has done over the frames it read.
pub struct StreamSummary {
    pub delivered: Seq<GraphQlResponse>,
    pub phase: WsPhase,
    pub failed: bool,
}

/// The run of a subscription over its inbound frames; frames after it is done
/// are not read.
pub open spec fn stream_of(frames: Seq<InboundFrame>) -> StreamSummary
    decreases frames.len(),
{
    if frames.len() == 0 {
        StreamSummary { delivered: Seq::empty(), phase: WsPhase::Streaming, failed: false }
    } else {
        let prev = stream_of(frames.drop_last());
        if prev.phase is Done {
            prev
        } else {
            let (action, phase) = frame_step(frames.last());
            StreamSummary {
                delivered: match action {
                    FrameAction::Deliver(p) => prev.delivered.push(p),
                    _ => prev.delivered,
                },
                phase,
                failed: action is Fail,
            }
        }
    }
}

impl WsSession {
    /// A session that has sent `connection_init` and waits for the server.
    pub fn new() -> (r: WsSession)
        ensures
            r.phase == WsPhase::AwaitingAck,
    {
        WsSession { phase: WsPhase::AwaitingAck }
    }

    /// Any message counts as the acknowledgment, after which the subscription
    /// is sent; a transport error or a closed stream ends the attempt.
    pub fn on_ack(&mut self, event: AckEvent) -> (r: Result<(), WsConnectionInitError>)
        requires
            old(self).phase == WsPhase::AwaitingAck,
        ensures
            event == AckEvent::Message ==> r is Ok && final(self).phase == WsPhase::Streaming,
            event != AckEvent::Message ==> r == Err::<(), WsConnectionInitError>(
                WsConnectionInitError,
            ) && final(self).phase == WsPhase::Done,
    {
        match event {
            AckEvent::Message => {
                self.phase = WsPhase::Streaming;
                Ok(())
            },
            _ => {
                self.phase = WsPhase::Done;
                Err(WsConnectionInitError)
            },
        }
    }

    /// Decides on one inbound frame: a message with a response is delivered,
    /// one without is logged and ends the attempt if it is `complete`; a frame
    /// that is not text or that failed in transport is logged and skipped; a
    /// text that is no protocol message fails the attempt.
    pub fn on_frame(&mut self, frame: InboundFrame) -> (r: FrameAction)
        requires
            old(self).phase == WsPhase::Streaming,
        ensures
            (r, final(self).phase) == frame_step(frame),
    {
        match frame {
            InboundFrame::Message(m) => {
                let WsResponse { message_type, id, payload } = m;
                match payload {
                    Some(p) => FrameAction::Deliver(p),
                    None => {
                        let ends = same_text(message_type.as_str(), "complete");
                        if ends {
                            self.phase = WsPhase::Done;
                        }
                        FrameAction::LogControl {
                            message: WsResponse { message_type, id, payload: None },
                            ends,
                        }
                    },
                }
            },
            InboundFrame::Malformed(e) => {
                self.phase = WsPhase::Done;
                FrameAction::Fail(e)
            },
            InboundFrame::NotText => FrameAction::LogNotText,
            InboundFrame::ReceiveError => FrameAction::LogReceiveError,
        }
    }

    /// The stream has no more messages: the attempt ends successfully.
    pub fn on_stream_end(&mut self)
        ensures
            final(self).phase == WsPhase::Done,
    {
        self.phase = WsPhase::Done;
    }
}

/// Two messages with responses and then a `complete` without one: the sink
/// gets both responses, in order, and the attempt ends without error.
pub proof fn lemma_two_responses_then_complete(a: WsResponse, b: WsResponse, c: WsResponse)
    requires
        a.payload is Some,
        b.payload is Some,
        c.payload is None,
        is_complete(c),
    ensures
        stream_of(seq![InboundFrame::Message(a), InboundFrame::Message(b), InboundFrame::Message(c)]).delivered
            == seq![a.payload->Some_0, b.payload->Some_0],
        stream_of(seq![InboundFrame::Message(a), InboundFrame::Message(b), InboundFrame::Message(c)]).phase
            == WsPhase::Done,
        !stream_of(seq![InboundFrame::Message(a), InboundFrame::Message(b), InboundFrame::Message(c)]).failed,
{
    let s = seq![InboundFrame::Message(a), InboundFrame::Message(b), InboundFrame::Message(c)];
    assert(s.drop_last() =~= seq![InboundFrame::Message(a), InboundFrame::Message(b)]);
    assert(s.drop_last().drop_last() =~= seq![InboundFrame::Message(a)]);
    assert(s.drop_last().drop_last().drop_last() =~= Seq::<InboundFrame>::empty());
    reveal_with_fuel(stream_of, 4);
    assert(stream_of(s).delivered =~= seq![a.payload->Some_0, b.payload->Some_0]);
}

} // verus!
